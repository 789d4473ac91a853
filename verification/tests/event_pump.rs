use flamewm_wm_x11::event_pump::{
    collapse_feed, collapse_start, CollapseStep, EventKind, PumpedEvent, WmEventPump,
};

#[derive(Debug, Clone, Copy, PartialEq)]
enum Ev {
    Motion { event: u32, child: u32, root_x: i16 },
    Press,
    Release,
    Configure,
}

fn kind(ev: &Ev) -> EventKind {
    match *ev {
        Ev::Motion { event, child, .. } => EventKind::Motion { event, child },
        _ => EventKind::Other,
    }
}

fn motion(event: u32, child: u32, root_x: i16) -> Ev {
    Ev::Motion { event, child, root_x }
}

fn root_x_of(ev: &Ev) -> i16 {
    match ev {
        Ev::Motion { root_x, .. } => *root_x,
        _ => panic!("expected motion"),
    }
}

fn tagged(ev: Ev) -> (Ev, EventKind) {
    let k = kind(&ev);
    (ev, k)
}

fn pump_next_result<E>(
    pump: &mut WmEventPump<Ev>,
    mut fetch: impl FnMut() -> Result<Option<Ev>, E>,
) -> Result<Option<PumpedEvent<Ev>>, E> {
    pump.pump_next_result(|| fetch().map(|ev| ev.map(tagged)))
}

fn pump_next(pump: &mut WmEventPump<Ev>, events: Vec<Ev>) -> Option<PumpedEvent<Ev>> {
    let mut iter = events.into_iter();
    pump.pump_next(|| iter.next().map(tagged))
}

#[test]
fn motion_x3_collapses_to_latest() {
    let mut pump = WmEventPump::new();
    let out = pump_next(
        &mut pump,
        vec![motion(7, 0, 1), motion(7, 0, 2), motion(7, 0, 3)],
    )
    .expect("event");
    assert_eq!(root_x_of(&out.event), 3);
    assert_eq!(out.received, 3);
    assert_eq!(out.coalesced, 2);
    assert!(!pump.has_pending());
}

#[test]
fn motion_release_motion_stops_and_release_next() {
    let mut pump = WmEventPump::new();
    let first = pump_next(&mut pump, vec![motion(7, 0, 1), Ev::Release]).expect("event");
    assert_eq!(root_x_of(&first.event), 1);
    assert_eq!((first.received, first.coalesced), (1, 0));
    // Pending returned exactly once, then drain continues.
    let second = pump_next(&mut pump, vec![]).expect("event");
    assert_eq!(second.event, Ev::Release);
    assert!(!pump.has_pending());
    let third = pump_next(&mut pump, vec![motion(7, 0, 9)]).expect("event");
    assert_eq!(root_x_of(&third.event), 9);
}

#[test]
fn different_event_window_does_not_collapse() {
    let mut pump = WmEventPump::new();
    let first = pump_next(&mut pump, vec![motion(1, 0, 1), motion(2, 0, 2)]).expect("event");
    assert_eq!(root_x_of(&first.event), 1);
    assert_eq!((first.received, first.coalesced), (1, 0));
    let second = pump_next(&mut pump, vec![]).expect("event");
    assert_eq!(root_x_of(&second.event), 2);
    assert!(!pump.has_pending());
}

#[test]
fn same_window_different_child_does_not_collapse() {
    let mut pump = WmEventPump::new();
    let first = pump_next(&mut pump, vec![motion(7, 10, 1), motion(7, 11, 2)]).expect("event");
    assert_eq!(root_x_of(&first.event), 1);
    assert_eq!((first.received, first.coalesced), (1, 0));
    let second = pump_next(&mut pump, vec![]).expect("event");
    assert_eq!(root_x_of(&second.event), 2);
    assert!(!pump.has_pending());
}

#[test]
fn non_motion_untouched_and_press_stops_collapse() {
    let mut pump = WmEventPump::new();
    let out = pump_next(&mut pump, vec![Ev::Configure]).expect("event");
    assert_eq!(out.event, Ev::Configure);
    assert_eq!((out.received, out.coalesced), (1, 0));

    let first = pump_next(&mut pump, vec![motion(7, 0, 5), Ev::Press]).expect("event");
    assert_eq!(root_x_of(&first.event), 5);
    assert_eq!((first.received, first.coalesced), (1, 0));
    let second = pump_next(&mut pump, vec![]).expect("event");
    assert_eq!(second.event, Ev::Press);
    assert!(!pump.has_pending());
}

#[test]
fn pending_returned_exactly_once() {
    let mut pump = WmEventPump::new();
    let _ = pump_next(&mut pump, vec![motion(7, 0, 1), Ev::Release]);
    assert!(pump.has_pending());
    let _ = pump_next(&mut pump, vec![]).expect("pending");
    assert!(!pump.has_pending());
    assert!(pump_next(&mut pump, vec![]).is_none());
}

#[derive(Debug, PartialEq)]
struct FetchErr;

#[test]
fn result_seam_propagates_fetch_error_on_first() {
    let mut pump = WmEventPump::new();
    let mut failing = || -> Result<Option<Ev>, FetchErr> { Err(FetchErr) };
    assert!(matches!(pump_next_result(&mut pump, &mut failing), Err(FetchErr)));
    assert!(!pump.has_pending());
}

#[test]
fn result_seam_propagates_drain_error_without_crossing_release() {
    let mut pump = WmEventPump::new();
    let mut calls = 0;
    let mut fetch = || -> Result<Option<Ev>, FetchErr> {
        calls += 1;
        match calls {
            1 => Ok(Some(motion(7, 0, 1))),
            2 => Ok(Some(motion(7, 0, 2))),
            _ => Err(FetchErr),
        }
    };
    assert!(matches!(pump_next_result(&mut pump, &mut fetch), Err(FetchErr)));
    // Nothing stashed: the release (never yet seen) was not crossed.
    assert!(!pump.has_pending());
}

#[test]
fn result_seam_ok_path_preserves_lookahead_and_release() {
    let mut pump = WmEventPump::new();
    let events = vec![motion(7, 0, 1), motion(7, 0, 2), Ev::Release];
    let mut iter = events.into_iter();
    let mut fetch = || -> Result<Option<Ev>, FetchErr> { Ok(iter.next()) };
    let first = pump_next_result(&mut pump, &mut fetch)
        .expect("event")
        .expect("some");
    assert_eq!(root_x_of(&first.event), 2);
    assert_eq!((first.received, first.coalesced), (2, 1));
    assert!(pump.has_pending());
    let second = pump_next_result(&mut pump, &mut fetch)
        .expect("event")
        .expect("some");
    assert_eq!(second.event, Ev::Release);
    assert!(!pump.has_pending());
}

// ---- further cases ----

#[test]
fn feed_steps_directly() {
    let step = collapse_start(motion(3, 4, 0), EventKind::Motion { event: 3, child: 4 });
    let c = match step {
        CollapseStep::Continue(c) => c,
        CollapseStep::Done(..) => panic!("motion starts a run"),
    };
    assert_eq!((c.target, c.received), ((3, 4), 1));
    let step = collapse_feed(c, Some((Ev::Press, EventKind::Other)));
    match step {
        CollapseStep::Done(out, lookahead) => {
            assert_eq!(root_x_of(&out.event), 0);
            assert_eq!((out.received, out.coalesced), (1, 0));
            assert_eq!(lookahead, Some((Ev::Press, EventKind::Other)));
        }
        CollapseStep::Continue(_) => panic!("press ends the run"),
    }
    match collapse_start(Ev::Configure, EventKind::Other) {
        CollapseStep::Done(out, lookahead) => {
            assert_eq!(out.event, Ev::Configure);
            assert!(lookahead.is_none());
        }
        CollapseStep::Continue(_) => panic!("non-motion passes through"),
    }
}
