//! Motion coalescing for the window manager's event loop.
//!
//! Contiguous motion events for the same `event` and `child` window
//! collapse to the latest. Any other event stops the collapse and is kept
//! as the lookahead, handed out exactly once before anything newer, so a
//! button release is never crossed and nothing is reordered.
//!
//! The caller supplies the poll source: [`WmEventPump::pump_next_result`]
//! hands out the stashed lookahead first, else polls once; a motion then
//! drains further polls through [`collapse_feed`] until something else
//! (or nothing) comes, and that is stashed for the next call.

use vstd::prelude::*;

verus! {

/// What coalescing reads of an event: the motion target, or nothing.
#[derive(Debug, Clone, Copy, PartialEq, Eq, Structural, Hash)]
pub enum EventKind {
    Motion { event: u32, child: u32 },
    Other,
}

/// One pumped event plus coalescing counts.
#[derive(Debug)]
pub struct PumpedEvent<T> {
    /// Event to dispatch (the latest motion when collapsed).
    pub event: T,
    /// Motion events observed for this emission (1 when untouched).
    pub received: usize,
    /// Motions dropped by collapsing (`received - 1`).
    pub coalesced: usize,
}

/// A collapse in progress: the latest motion of the run so far.
#[derive(Debug)]
pub struct MotionCollapse<T> {
    pub latest: T,
    pub target: (u32, u32),
    pub received: usize,
}

/// Outcome of one collapse step.
#[derive(Debug)]
pub enum CollapseStep<T> {
    /// Keep draining.
    Continue(MotionCollapse<T>),
    /// Emit the event; the second field is the lookahead to stash.
    Done(PumpedEvent<T>, Option<(T, EventKind)>),
}

/// Whether an event of kind `k` extends a run aimed at `target`.
pub open spec fn absorbs(target: (u32, u32), k: EventKind) -> bool {
    k == (EventKind::Motion { event: target.0, child: target.1 })
}

/// The emission for a finished run.
pub open spec fn finished<T>(c: MotionCollapse<T>) -> PumpedEvent<T> {
    PumpedEvent { event: c.latest, received: c.received, coalesced: (c.received - 1) as usize }
}

/// The step for the first event.
pub open spec fn start_spec<T>(first: T, kind: EventKind) -> CollapseStep<T> {
    match kind {
        EventKind::Motion { event, child } => CollapseStep::Continue(
            MotionCollapse { latest: first, target: (event, child), received: 1 },
        ),
        EventKind::Other => CollapseStep::Done(
            PumpedEvent { event: first, received: 1, coalesced: 0 },
            None,
        ),
    }
}

/// The step for the next drained event (`None`: nothing left to drain).
pub open spec fn feed_spec<T>(c: MotionCollapse<T>, next: Option<(T, EventKind)>) -> CollapseStep<T> {
    match next {
        None => CollapseStep::Done(finished(c), None),
        Some((ev, k)) => if absorbs(c.target, k) {
            CollapseStep::Continue(
                MotionCollapse { latest: ev, target: c.target, received: (c.received + 1) as usize },
            )
        } else {
            CollapseStep::Done(finished(c), Some((ev, k)))
        },
    }
}

/// Begin a collapse at `first`: a non-motion event passes through
/// untouched, a motion starts a run aimed at its window and child.
pub fn collapse_start<T>(first: T, kind: EventKind) -> (r: CollapseStep<T>)
    ensures
        r == start_spec(first, kind),
{
    match kind {
        EventKind::Motion { event, child } => CollapseStep::Continue(
            MotionCollapse { latest: first, target: (event, child), received: 1 },
        ),
        EventKind::Other => CollapseStep::Done(
            PumpedEvent { event: first, received: 1, coalesced: 0 },
            None,
        ),
    }
}

/// Feed the next drained event: a motion for the same window and child
/// replaces the latest; anything else ends the run and becomes the
/// lookahead; an empty queue ends the run with no lookahead.
pub fn collapse_feed<T>(c: MotionCollapse<T>, next: Option<(T, EventKind)>) -> (r: CollapseStep<T>)
    requires
        1 <= c.received < usize::MAX,
    ensures
        r == feed_spec(c, next),
{
    match next {
        None => {
            let coalesced = c.received - 1;
            CollapseStep::Done(
                PumpedEvent { event: c.latest, received: c.received, coalesced },
                None,
            )
        },
        Some((ev, k)) => {
            let same = match k {
                EventKind::Motion { event, child } => event == c.target.0 && child == c.target.1,
                EventKind::Other => false,
            };
            if same {
                CollapseStep::Continue(
                    MotionCollapse { latest: ev, target: c.target, received: c.received + 1 },
                )
            } else {
                let coalesced = c.received - 1;
                CollapseStep::Done(
                    PumpedEvent { event: c.latest, received: c.received, coalesced },
                    Some((ev, k)),
                )
            }
        },
    }
}

/// What one pump call gives back and leaves stashed, when the polls made
/// return `outs` in order, starting from a collapse `c`; `None` when `outs`
/// is not exactly the polls that call makes. A run stops without polling
/// once its count has reached the largest `usize`.
pub open spec fn drain_spec<T, E>(c: MotionCollapse<T>, outs: Seq<Result<Option<(T, EventKind)>, E>>) -> Option<
    (Result<Option<PumpedEvent<T>>, E>, Option<(T, EventKind)>),
>
    decreases outs.len(),
{
    if c.received >= usize::MAX {
        if outs.len() == 0 {
            Some((Ok(Some(finished(c))), None))
        } else {
            None
        }
    } else if outs.len() == 0 {
        None
    } else {
        match outs[0] {
            Err(e) => if outs.len() == 1 {
                Some((Err(e), None))
            } else {
                None
            },
            Ok(next) => match feed_spec(c, next) {
                CollapseStep::Continue(c2) => drain_spec(c2, outs.drop_first()),
                CollapseStep::Done(out, la) => if outs.len() == 1 {
                    Some((Ok(Some(out)), la))
                } else {
                    None
                },
            },
        }
    }
}

/// A call that starts from `first` (with kind `k`) and then polls `outs`.
pub open spec fn start_from<T, E>(first: T, k: EventKind, outs: Seq<Result<Option<(T, EventKind)>, E>>) -> Option<
    (Result<Option<PumpedEvent<T>>, E>, Option<(T, EventKind)>),
> {
    match start_spec(first, k) {
        CollapseStep::Continue(c) => drain_spec(c, outs),
        CollapseStep::Done(out, la) => if outs.len() == 0 {
            Some((Ok(Some(out)), la))
        } else {
            None
        },
    }
}

/// What one pump call gives back and leaves stashed, with lookahead `la`
/// and polls returning `outs`: the lookahead is used before anything is
/// polled; a failed poll ends the call with its error and nothing stashed;
/// an empty poll with no lookahead gives nothing.
pub open spec fn pump_spec<T, E>(la: Option<(T, EventKind)>, outs: Seq<Result<Option<(T, EventKind)>, E>>) -> Option<
    (Result<Option<PumpedEvent<T>>, E>, Option<(T, EventKind)>),
> {
    match la {
        Some((ev, k)) => start_from(ev, k, outs),
        None => if outs.len() == 0 {
            None
        } else {
            match outs[0] {
                Err(e) => if outs.len() == 1 {
                    Some((Err(e), None))
                } else {
                    None
                },
                Ok(None) => if outs.len() == 1 {
                    Some((Ok(None), None))
                } else {
                    None
                },
                Ok(Some((ev, k))) => start_from(ev, k, outs.drop_first()),
            }
        },
    }
}

/// Polls that return the events `evs` and then `last`.
pub open spec fn polls<T, E>(evs: Seq<(T, EventKind)>, last: Option<(T, EventKind)>) -> Seq<
    Result<Option<(T, EventKind)>, E>,
> {
    Seq::new(evs.len(), |i: int| Ok(Some(evs[i]))).push(Ok(last))
}

/// Law: a run absorbs exactly the contiguous same-target motions that
/// follow it. When polls return such motions and then anything else (or
/// nothing), the emission is the last motion (the run's own when there
/// is none), its count grows by the motions absorbed, and what came after
/// them is stashed untouched: nothing later is polled, so a release is
/// never crossed.
pub proof fn lemma_drain_stops_at_first_other<T, E>(c: MotionCollapse<T>, evs: Seq<(T, EventKind)>, last: Option<
    (T, EventKind),
>)
    requires
        1 <= c.received,
        c.received + evs.len() < usize::MAX,
        forall|i: int| 0 <= i < evs.len() ==> absorbs(c.target, #[trigger] evs[i].1),
        last matches Some(e) ==> !absorbs(c.target, e.1),
    ensures
        drain_spec::<T, E>(c, polls(evs, last)) == Some((
            Ok::<Option<PumpedEvent<T>>, E>(Some(PumpedEvent {
                event: if evs.len() == 0 { c.latest } else { evs.last().0 },
                received: (c.received + evs.len()) as usize,
                coalesced: (c.received + evs.len() - 1) as usize,
            })),
            last,
        )),
    decreases evs.len(),
{
    let outs = polls::<T, E>(evs, last);
    if evs.len() == 0 {
        assert(outs.len() == 1);
        assert(outs[0] == Ok::<Option<(T, EventKind)>, E>(last));
    } else {
        let next = MotionCollapse { latest: evs[0].0, target: c.target, received: (c.received + 1) as usize };
        let rest = evs.drop_first();
        assert forall|i: int| 0 <= i < rest.len() implies absorbs(next.target, #[trigger] rest[i].1) by {
            assert(rest[i] == evs[i + 1]);
        }
        assert(outs[0] == Ok::<Option<(T, EventKind)>, E>(Some(evs[0])));
        assert(absorbs(c.target, evs[0].1));
        assert(outs.drop_first() =~= polls::<T, E>(rest, last));
        lemma_drain_stops_at_first_other::<T, E>(next, rest, last);
        if rest.len() > 0 {
            assert(rest.last() == evs.last());
        }
    }
}

/// Polls that cannot fail, as results.
pub open spec fn as_results<T>(outs: Seq<Option<(T, EventKind)>>) -> Seq<Result<Option<(T, EventKind)>, ()>> {
    Seq::new(outs.len(), |i: int| Ok(outs[i]))
}

/// The pump: the lookahead event, with its kind, stashed by the last
/// collapse.
#[derive(Debug)]
pub struct WmEventPump<T> {
    pending: Option<(T, EventKind)>,
}

impl<T> WmEventPump<T> {
    /// The stashed lookahead.
    pub closed spec fn lookahead(&self) -> Option<(T, EventKind)> {
        self.pending
    }

    pub fn new() -> (r: Self)
        ensures
            r.lookahead() is None,
    {
        WmEventPump { pending: None }
    }

    /// True while a lookahead waits to be handed out.
    pub fn has_pending(&self) -> (r: bool)
        ensures
            r == self.lookahead() is Some,
    {
        self.pending.is_some()
    }

    /// The next pumped event from an error-aware poll source. Every poll
    /// result is one `fetch_one` can return; errors propagate and leave
    /// nothing stashed.
    pub fn pump_next_result<E, F: FnMut() -> Result<Option<(T, EventKind)>, E>>(&mut self, fetch_one: F) -> (r:
        Result<Option<PumpedEvent<T>>, E>)
        requires
            call_requires(fetch_one, ()),
        ensures
            exists|outs: Seq<Result<Option<(T, EventKind)>, E>>|
                {
                    &&& forall|i: int| 0 <= i < outs.len() ==> call_ensures(fetch_one, (), #[trigger] outs[i])
                    &&& pump_spec(old(self).lookahead(), outs) == Some((r, final(self).lookahead()))
                },
    {
        let ghost la0 = self.pending;
        let mut poll = fetch_one;
        let ghost mut outs: Seq<Result<Option<(T, EventKind)>, E>> = Seq::empty();
        let (first, kind) = match self.pending.take() {
            Some(p) => p,
            None => {
                let got = poll();
                proof {
                    outs = outs.push(got);
                }
                match got {
                    Err(e) => {
                        assert(pump_spec(la0, outs) == Some((Err::<Option<PumpedEvent<T>>, E>(e), None::<(T, EventKind)>)));
                        return Err(e);
                    },
                    Ok(None) => {
                        assert(pump_spec(la0, outs) == Some((Ok::<Option<PumpedEvent<T>>, E>(None), None::<(T, EventKind)>)));
                        return Ok(None);
                    },
                    Ok(Some(p)) => p,
                }
            },
        };
        proof {
            assert forall|rest: Seq<Result<Option<(T, EventKind)>, E>>|
                #[trigger] pump_spec(la0, outs + rest) == start_from(first, kind, rest) by {
                if la0 is None {
                    assert((outs + rest).drop_first() =~= rest);
                } else {
                    assert(outs + rest =~= rest);
                }
            }
        }
        let mut run = match collapse_start(first, kind) {
            CollapseStep::Done(out, lookahead) => {
                proof {
                    assert(outs + Seq::<Result<Option<(T, EventKind)>, E>>::empty() =~= outs);
                }
                self.pending = lookahead;
                return Ok(Some(out));
            },
            CollapseStep::Continue(c) => c,
        };
        loop
            invariant
                1 <= run.received,
                self.pending is None,
                la0 == old(self).pending,
                poll == fetch_one,
                call_requires(fetch_one, ()),
                forall|i: int| 0 <= i < outs.len() ==> call_ensures(fetch_one, (), #[trigger] outs[i]),
                forall|rest: Seq<Result<Option<(T, EventKind)>, E>>|
                    #[trigger] pump_spec(la0, outs + rest) == drain_spec(run, rest),
            decreases usize::MAX - run.received,
        {
            if run.received == usize::MAX {
                proof {
                    assert(outs + Seq::<Result<Option<(T, EventKind)>, E>>::empty() =~= outs);
                    assert(pump_spec(la0, outs + Seq::<Result<Option<(T, EventKind)>, E>>::empty()) == drain_spec(run, Seq::<Result<Option<(T, EventKind)>, E>>::empty()));
                    assert(pump_spec(la0, outs) == Some((Ok::<Option<PumpedEvent<T>>, E>(Some(finished(run))), None::<(T, EventKind)>)));
                }
                let coalesced = run.received - 1;
                return Ok(Some(PumpedEvent { event: run.latest, received: run.received, coalesced }));
            }
            let got = poll();
            let ghost before = outs;
            proof {
                outs = outs.push(got);
                assert forall|i: int| 0 <= i < outs.len() implies call_ensures(fetch_one, (), #[trigger] outs[i]) by {
                    if i < before.len() {
                        assert(outs[i] == before[i]);
                    }
                }
                assert forall|rest: Seq<Result<Option<(T, EventKind)>, E>>|
                    #[trigger] pump_spec(la0, outs + rest) == drain_spec(run, seq![got] + rest) by {
                    assert(before + (seq![got] + rest) =~= outs + rest);
                    assert(pump_spec(la0, before + (seq![got] + rest)) == drain_spec(run, seq![got] + rest));
                }
            }
            match got {
                Err(e) => {
                    proof {
                        let empty = Seq::<Result<Option<(T, EventKind)>, E>>::empty();
                        assert(seq![got] + empty =~= seq![got]);
                        assert(outs + empty =~= outs);
                        assert(pump_spec(la0, outs + empty) == drain_spec(run, seq![got] + empty));
                        assert(pump_spec(la0, outs) == Some((Err::<Option<PumpedEvent<T>>, E>(e), None::<(T, EventKind)>)));
                    }
                    return Err(e);
                },
                Ok(next) => {
                    let ghost r0 = run;
                    match collapse_feed(run, next) {
                        CollapseStep::Done(out, lookahead) => {
                            proof {
                                let empty = Seq::<Result<Option<(T, EventKind)>, E>>::empty();
                                assert(seq![got] + empty =~= seq![got]);
                                assert(outs + empty =~= outs);
                                assert(pump_spec(la0, outs + empty) == drain_spec(r0, seq![got] + empty));
                                assert(pump_spec(la0, outs) == Some((Ok::<Option<PumpedEvent<T>>, E>(Some(out)), lookahead)));
                            }
                            self.pending = lookahead;
                            return Ok(Some(out));
                        },
                        CollapseStep::Continue(c) => {
                            proof {
                                assert forall|rest: Seq<Result<Option<(T, EventKind)>, E>>|
                                    #[trigger] pump_spec(la0, outs + rest) == drain_spec(c, rest) by {
                                    assert((seq![got] + rest).drop_first() =~= rest);
                                    assert(pump_spec(la0, outs + rest) == drain_spec(r0, seq![got] + rest));
                                }
                            }
                            run = c;
                        },
                    }
                },
            }
        }
    }

    /// The next pumped event from a poll source that cannot fail.
    pub fn pump_next<F: FnMut() -> Option<(T, EventKind)>>(&mut self, fetch_one: F) -> (r: Option<PumpedEvent<T>>)
        requires
            call_requires(fetch_one, ()),
        ensures
            exists|outs: Seq<Option<(T, EventKind)>>|
                {
                    &&& forall|i: int| 0 <= i < outs.len() ==> call_ensures(fetch_one, (), #[trigger] outs[i])
                    &&& pump_spec(old(self).lookahead(), as_results(outs)) == Some((Ok::<Option<PumpedEvent<T>>, ()>(r), final(self).lookahead()))
                },
    {
        let ghost la0 = self.pending;
        let mut poll = fetch_one;
        let ghost mut outs: Seq<Option<(T, EventKind)>> = Seq::empty();
        let (first, kind) = match self.pending.take() {
            Some(p) => p,
            None => {
                let got = poll();
                proof {
                    outs = outs.push(got);
                    assert(as_results(outs)[0] == Ok::<Option<(T, EventKind)>, ()>(got));
                }
                match got {
                    None => {
                        assert(pump_spec(la0, as_results(outs)) == Some((Ok::<Option<PumpedEvent<T>>, ()>(None), None::<(T, EventKind)>)));
                        return None;
                    },
                    Some(p) => p,
                }
            },
        };
        proof {
            assert forall|rest: Seq<Option<(T, EventKind)>>|
                #[trigger] pump_spec(la0, as_results(outs + rest)) == start_from(first, kind, as_results(rest)) by {
                if la0 is None {
                    assert(as_results(outs + rest).drop_first() =~= as_results(rest));
                    assert(as_results(outs + rest)[0] == Ok::<Option<(T, EventKind)>, ()>(outs[0]));
                } else {
                    assert(outs + rest =~= rest);
                }
            }
        }
        let mut run = match collapse_start(first, kind) {
            CollapseStep::Done(out, lookahead) => {
                proof {
                    assert(outs + Seq::<Option<(T, EventKind)>>::empty() =~= outs);
                    assert(as_results(Seq::<Option<(T, EventKind)>>::empty()) =~= Seq::<Result<Option<(T, EventKind)>, ()>>::empty());
                }
                self.pending = lookahead;
                return Some(out);
            },
            CollapseStep::Continue(c) => c,
        };
        loop
            invariant
                1 <= run.received,
                self.pending is None,
                la0 == old(self).pending,
                poll == fetch_one,
                call_requires(fetch_one, ()),
                forall|i: int| 0 <= i < outs.len() ==> call_ensures(fetch_one, (), #[trigger] outs[i]),
                forall|rest: Seq<Option<(T, EventKind)>>|
                    #[trigger] pump_spec(la0, as_results(outs + rest)) == drain_spec(run, as_results(rest)),
            decreases usize::MAX - run.received,
        {
            if run.received == usize::MAX {
                proof {
                    let empty = Seq::<Option<(T, EventKind)>>::empty();
                    assert(outs + empty =~= outs);
                    assert(as_results(empty) =~= Seq::<Result<Option<(T, EventKind)>, ()>>::empty());
                    assert(pump_spec(la0, as_results(outs + empty)) == drain_spec(run, as_results(empty)));
                    assert(pump_spec(la0, as_results(outs)) == Some((Ok::<Option<PumpedEvent<T>>, ()>(Some(finished(run))), None::<(T, EventKind)>)));
                }
                let coalesced = run.received - 1;
                return Some(PumpedEvent { event: run.latest, received: run.received, coalesced });
            }
            let got = poll();
            let ghost before = outs;
            proof {
                outs = outs.push(got);
                assert forall|i: int| 0 <= i < outs.len() implies call_ensures(fetch_one, (), #[trigger] outs[i]) by {
                    if i < before.len() {
                        assert(outs[i] == before[i]);
                    }
                }
                assert forall|rest: Seq<Option<(T, EventKind)>>|
                    #[trigger] pump_spec(la0, as_results(outs + rest)) == drain_spec(run, as_results(seq![got] + rest)) by {
                    assert(before + (seq![got] + rest) =~= outs + rest);
                    assert(pump_spec(la0, as_results(before + (seq![got] + rest))) == drain_spec(run, as_results(seq![got] + rest)));
                }
            }
            let ghost r0 = run;
            match collapse_feed(run, got) {
                CollapseStep::Done(out, lookahead) => {
                    proof {
                        let empty = Seq::<Option<(T, EventKind)>>::empty();
                        assert(seq![got] + empty =~= seq![got]);
                        assert(outs + empty =~= outs);
                        assert(pump_spec(la0, as_results(outs + empty)) == drain_spec(r0, as_results(seq![got] + empty)));
                        assert(as_results(seq![got])[0] == Ok::<Option<(T, EventKind)>, ()>(got));
                        assert(as_results(seq![got]).len() == 1);
                        assert(pump_spec(la0, as_results(outs)) == Some((Ok::<Option<PumpedEvent<T>>, ()>(Some(out)), lookahead)));
                    }
                    self.pending = lookahead;
                    return Some(out);
                },
                CollapseStep::Continue(c) => {
                    proof {
                        assert forall|rest: Seq<Option<(T, EventKind)>>|
                            #[trigger] pump_spec(la0, as_results(outs + rest)) == drain_spec(c, as_results(rest)) by {
                            assert(as_results(seq![got] + rest).drop_first() =~= as_results(rest));
                            assert(as_results(seq![got] + rest)[0] == Ok::<Option<(T, EventKind)>, ()>(got));
                            assert(pump_spec(la0, as_results(outs + rest)) == drain_spec(r0, as_results(seq![got] + rest)));
                        }
                    }
                    run = c;
                },
            }
        }
    }
}

} // verus!
