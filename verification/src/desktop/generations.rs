//! Window generations: a counter stamped on a window whenever the desktop
//! changes it, so that a caller holding an older reference is told its
//! view is stale.

use vstd::prelude::*;
use std::collections::BTreeMap;

verus! {

broadcast use vstd::laws_cmp::group_laws_cmp;

/// A reference to a window as callers hold it: the window id and the
/// generation they saw (0: any).
#[derive(Debug, Clone, Copy, PartialEq, Eq, Structural, Hash)]
pub struct WindowRef {
    pub id: u64,
    pub generation: u64,
}

impl WindowRef {
    /// A reference names a window when its id is not 0.
    pub open spec fn valid(self) -> bool {
        self.id != 0
    }

    pub fn is_valid(&self) -> (r: bool)
        ensures
            r == self.valid(),
    {
        self.id != 0
    }
}

/// The generation a map records for a window, 0 when none.
pub open spec fn generation_in(m: Map<u32, u64>, w: u32) -> u64 {
    if m.contains_key(w) {
        m[w]
    } else {
        0
    }
}

/// The generation the next stamp hands out: the counter, at least 1.
pub open spec fn stamp_value(next: u64) -> u64 {
    if next == 0 {
        1
    } else {
        next
    }
}

/// The counter after a stamp: one past the stamp, saturating.
pub open spec fn counter_after(next: u64) -> u64 {
    if stamp_value(next) == u64::MAX {
        u64::MAX
    } else {
        (stamp_value(next) + 1) as u64
    }
}

/// The stamped generations and the counter.
pub struct WindowGenerations {
    generations: BTreeMap<u32, u64>,
    next_generation: u64,
}

impl View for WindowGenerations {
    type V = (Map<u32, u64>, u64);

    closed spec fn view(&self) -> (Map<u32, u64>, u64) {
        (self.generations@, self.next_generation)
    }
}

/// The state after stamping `w`, and the stamp.
pub open spec fn stamp_spec(s: (Map<u32, u64>, u64), w: u32) -> ((Map<u32, u64>, u64), u64) {
    ((s.0.insert(w, stamp_value(s.1)), counter_after(s.1)), stamp_value(s.1))
}

/// The state after making sure `w` has a generation, and that generation.
pub open spec fn ensure_spec(s: (Map<u32, u64>, u64), w: u32) -> ((Map<u32, u64>, u64), u64) {
    if generation_in(s.0, w) != 0 {
        (s, generation_in(s.0, w))
    } else {
        stamp_spec(s, w)
    }
}

/// Why a window reference is refused, if it is: no id, not among the
/// managed windows, or a generation other than the one recorded.
pub open spec fn check_spec(m: Map<u32, u64>, reference: WindowRef, managed: Seq<u32>) -> Result<u32, crate::desktop::error::DesktopError> {
    if !reference.valid() {
        Err(crate::desktop::error::DesktopError::InvalidWindowRef)
    } else if !(exists|i: int| 0 <= i < managed.len() && managed[i] as u64 == reference.id) {
        Err(crate::desktop::error::DesktopError::WindowNotManaged)
    } else {
        let w = reference.id as u32;
        if reference.generation != 0 && reference.generation != generation_in(m, w) {
            Err(crate::desktop::error::DesktopError::StaleWindowGeneration)
        } else {
            Ok(w)
        }
    }
}

impl WindowGenerations {
    /// Nothing stamped; the first stamp is 1.
    pub fn new() -> (r: Self)
        ensures
            r@ == (Map::<u32, u64>::empty(), 1u64),
    {
        WindowGenerations { generations: BTreeMap::new(), next_generation: 1 }
    }

    /// The generation recorded for `window`, 0 when none.
    pub fn generation_of(&self, window: u32) -> (r: u64)
        ensures
            r == generation_in(self@.0, window),
    {
        match self.generations.get(&window) {
            Some(g) => *g,
            None => 0,
        }
    }

    /// Stamp `window` with a fresh generation and return it.
    pub fn bump(&mut self, window: u32) -> (r: u64)
        ensures
            (final(self)@, r) == stamp_spec(old(self)@, window),
    {
        let next = if self.next_generation == 0 {
            1
        } else {
            self.next_generation
        };
        self.next_generation = if next == u64::MAX {
            u64::MAX
        } else {
            next + 1
        };
        self.generations.insert(window, next);
        next
    }

    /// The recorded generation, stamping one first when there is none.
    pub fn ensure(&mut self, window: u32) -> (r: u64)
        ensures
            (final(self)@, r) == ensure_spec(old(self)@, window),
    {
        let current = self.generation_of(window);
        if current != 0 {
            return current;
        }
        self.bump(window)
    }

    /// Stamp `window` and then forget it (the window is being closed).
    pub fn retire(&mut self, window: u32)
        ensures
            final(self)@ == ((stamp_spec(old(self)@, window).0).0.remove(window), stamp_spec(old(self)@, window).0.1),
    {
        self.bump(window);
        self.generations.remove(&window);
    }

    /// Resolve a reference against the managed windows.
    pub fn check(&self, reference: WindowRef, managed: &[u32]) -> (r: Result<u32, crate::desktop::error::DesktopError>)
        ensures
            r == check_spec(self@.0, reference, managed@),
    {
        if !reference.is_valid() {
            return Err(crate::desktop::error::DesktopError::InvalidWindowRef);
        }
        let mut i: usize = 0;
        while i < managed.len()
            invariant
                0 <= i <= managed@.len(),
                reference.valid(),
                forall|j: int| 0 <= j < i ==> managed@[j] as u64 != reference.id,
            decreases managed@.len() - i,
        {
            let w = managed[i];
            if w as u64 == reference.id {
                let id = reference.id;
                assert(id as u32 == w) by (bit_vector)
                    requires
                        w as u64 == id,
                ;
                assert(managed@[i as int] as u64 == reference.id);
                let g = self.generation_of(w);
                if reference.generation != 0 && reference.generation != g {
                    return Err(crate::desktop::error::DesktopError::StaleWindowGeneration);
                }
                return Ok(w);
            }
            i += 1;
        }
        Err(crate::desktop::error::DesktopError::WindowNotManaged)
    }
}

/// Law: a stamp is never 0 and is what the window then reads back.
pub proof fn lemma_stamp_recorded(s: (Map<u32, u64>, u64), w: u32)
    ensures
        stamp_spec(s, w).1 != 0,
        generation_in(stamp_spec(s, w).0.0, w) == stamp_spec(s, w).1,
{
}

/// Law: stamps grow: a later stamp, of any window, is larger than an
/// earlier one unless the counter has reached its ceiling.
pub proof fn lemma_stamps_increase(s: (Map<u32, u64>, u64), w1: u32, w2: u32)
    ensures
        stamp_spec(s, w1).1 < u64::MAX ==> stamp_spec(stamp_spec(s, w1).0, w2).1 > stamp_spec(s, w1).1,
        stamp_spec(stamp_spec(s, w1).0, w2).1 >= stamp_spec(s, w1).1,
{
}

/// Law: making sure twice changes nothing more than making sure once.
pub proof fn lemma_ensure_idempotent(s: (Map<u32, u64>, u64), w: u32)
    ensures
        ensure_spec(ensure_spec(s, w).0, w) == ensure_spec(s, w),
{
}

/// Law: a reference that names a generation and was accepted is refused as
/// stale once its window is stamped with a different generation.
pub proof fn lemma_stamp_makes_old_reference_stale(s: (Map<u32, u64>, u64), reference: WindowRef, managed: Seq<u32>)
    requires
        check_spec(s.0, reference, managed) == Ok::<u32, crate::desktop::error::DesktopError>(reference.id as u32),
        reference.generation != 0,
        stamp_spec(s, reference.id as u32).1 != generation_in(s.0, reference.id as u32),
    ensures
        check_spec(stamp_spec(s, reference.id as u32).0.0, reference, managed)
            == Err::<u32, crate::desktop::error::DesktopError>(crate::desktop::error::DesktopError::StaleWindowGeneration),
{
}

} // verus!
