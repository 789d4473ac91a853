use flamewm_wm_x11::cursor::CursorKind;
use flamewm_wm_x11::frame::controller::FrameEffect;
use flamewm_wm_x11::frame::model::SnapTarget;
use flamewm_wm_x11::wm::interaction::{grab_step, native_ops, GrabStep, NativeOp, NotifyGeometry, PointerCommit};

#[test]
fn plan_lowers_to_native_steps_in_order() {
    let commit = PointerCommit::plan(vec![
        FrameEffect::Grab { window: 9, cursor: CursorKind::Move },
        FrameEffect::MoveFrameRoot { x: 10, y: 20 },
        FrameEffect::ConfigureFrameRoot { x: 1, y: 2, w: 0, h: 300 },
        FrameEffect::ConfigureClientLocal { x: 1, y: 31, w: 0, h: 200 },
        FrameEffect::NotifyClientRoot { x: 70000, y: -70000, w: 0, h: 100000 },
        FrameEffect::LayoutInput,
        FrameEffect::PaintChrome,
        FrameEffect::ApplyShape,
        FrameEffect::SnapPreview { target: Some(SnapTarget::Left) },
        FrameEffect::SnapPreview { target: None },
        FrameEffect::Noop,
        FrameEffect::Ungrab,
    ]);
    assert_eq!(
        native_ops(&commit, Some(5)),
        vec![
            NativeOp::MoveFrame { frame: 5, x: 10, y: 20 },
            NativeOp::CommitPosition { x: 10, y: 20 },
            NativeOp::ConfigureFrame { frame: 5, x: 1, y: 2, width: 1, height: 300 },
            NativeOp::CommitRect { x: 1, y: 2, w: 0, h: 300 },
            NativeOp::ConfigureClient { x: 1, y: 31, width: 1, height: 200 },
            NativeOp::NotifyClient(NotifyGeometry { x: i16::MAX, y: i16::MIN, width: 1, height: u16::MAX }),
            NativeOp::LayoutInput,
            NativeOp::PaintChrome,
            NativeOp::ApplyShape,
            NativeOp::HidePreview,
            NativeOp::ReleasePointer,
        ]
    );
}

#[test]
fn plan_for_a_vanished_client_skips_frame_steps() {
    let commit = PointerCommit::plan(vec![
        FrameEffect::MoveFrameRoot { x: 10, y: 20 },
        FrameEffect::ApplyShape,
        FrameEffect::PaintChrome,
    ]);
    assert_eq!(native_ops(&commit, None), vec![NativeOp::PaintChrome]);
}

#[test]
fn failed_grab_stops_the_plan() {
    let grabbing = PointerCommit::plan(vec![FrameEffect::Grab { window: 9, cursor: CursorKind::Move }]);
    assert_eq!(grab_step(&grabbing, true), GrabStep::Proceed);
    assert_eq!(grab_step(&grabbing, false), GrabStep::Stop { abort_session: true });
    let plain = PointerCommit::plan(vec![FrameEffect::PaintChrome]);
    assert_eq!(grab_step(&plain, false), GrabStep::Proceed);
}
