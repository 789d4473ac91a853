//! Snap-preview intent and its backdrop-request fence.
//!
//! While a window is dragged toward a screen edge the window manager shows
//! a pass-through overlay at the snap candidate's rectangle. This module
//! owns what is shown and which backdrop capture may still apply: every
//! capture request carries a generation, the candidate, the rectangle and
//! the opacity; hiding bumps the generation, so results for anything older
//! are stale. The overlay surface and the capture worker live with the
//! caller, which performs each step this module decides.

use vstd::prelude::*;
use crate::wm::release::SnapCandidate;

verus! {

/// Fill opacity used when no live setting is available.
pub const DEFAULT_PREVIEW_OPACITY_PERCENT: u8 = 20;

/// A preview rectangle in root coordinates (signed size, as the shared
/// snap geometry produces it).
#[derive(Debug, Clone, Copy, PartialEq, Eq, Structural, Hash)]
pub struct PreviewRect {
    pub x: i32,
    pub y: i32,
    pub width: i32,
    pub height: i32,
}

/// One backdrop capture request; all fields together are the stale-state
/// fence.
#[derive(Debug, Clone, Copy, PartialEq, Eq, Structural, Hash)]
pub struct BackdropRequest {
    pub generation: u64,
    pub candidate: SnapCandidate,
    pub geometry: PreviewRect,
    pub opacity: u8,
    pub capture: CaptureRect,
}

/// The root area a capture reads.
#[derive(Debug, Clone, Copy, PartialEq, Eq, Structural, Hash)]
pub struct CaptureRect {
    pub x: i32,
    pub y: i32,
    pub width: u32,
    pub height: u32,
}

/// A finished capture: the request it answers, the raster size, and the
/// composited pixels (`None` when capture or composition failed, with the
/// failure kept in `error`).
#[derive(Debug, Clone, PartialEq, Eq)]
pub struct BackdropResult {
    pub request: BackdropRequest,
    pub width: u32,
    pub height: u32,
    pub pixels: Option<Vec<u8>>,
    pub error: Option<String>,
}

impl BackdropResult {
    /// A result applies only to exactly the request it answers.
    pub fn matches(&self, request: BackdropRequest) -> (r: bool)
        ensures
            r == (self.request == request),
    {
        self.request == request
    }
}

/// Decimal digits of `n`.
pub open spec fn decimal_chars(n: nat) -> Seq<char>
    decreases n,
{
    if n < 10 {
        seq![(48 + n) as char]
    } else {
        decimal_chars(n / 10).push((48 + n % 10) as char)
    }
}

fn digit_text(d: usize) -> (r: &'static str)
    requires
        d < 10,
    ensures
        r@ == seq![(48 + d) as char],
{
    proof {
        reveal_strlit("0");
        reveal_strlit("1");
        reveal_strlit("2");
        reveal_strlit("3");
        reveal_strlit("4");
        reveal_strlit("5");
        reveal_strlit("6");
        reveal_strlit("7");
        reveal_strlit("8");
        reveal_strlit("9");
    }
    match d {
        0 => "0",
        1 => "1",
        2 => "2",
        3 => "3",
        4 => "4",
        5 => "5",
        6 => "6",
        7 => "7",
        8 => "8",
        _ => "9",
    }
}

fn append_decimal(out: &mut String, n: usize)
    ensures
        final(out)@ == old(out)@ + decimal_chars(n as nat),
    decreases n,
{
    if n >= 10 {
        append_decimal(out, n / 10);
    }
    out.append(digit_text(n % 10));
    proof {
        if n >= 10 {
            assert(decimal_chars(n as nat) == decimal_chars((n / 10) as nat).push((48 + n % 10) as char));
        }
    }
}

/// The size a composited raster must have: four bytes a pixel.
pub open spec fn expected_bytes(width: u32, height: u32) -> int {
    width * height * 4
}

/// The message of a composite that came out the wrong size.
pub open spec fn composite_size_error(got: nat, width: u32, height: u32) -> Seq<char> {
    "backdrop composite produced "@ + decimal_chars(got) + " bytes; expected "@
        + decimal_chars(expected_bytes(width, height) as nat)
}

impl BackdropResult {
    /// The result of a finished composite: its pixels when they fill the
    /// raster exactly, else no pixels and the size mismatch as the error.
    pub fn from_composite(request: BackdropRequest, width: u32, height: u32, pixels: Vec<u8>) -> (r: Self)
        requires
            expected_bytes(width, height) <= usize::MAX,
        ensures
            r.request == request,
            r.width == width,
            r.height == height,
            pixels@.len() == expected_bytes(width, height) ==> (r.pixels matches Some(p) && p@ == pixels@)
                && r.error is None,
            pixels@.len() != expected_bytes(width, height) ==> r.pixels is None && (r.error matches Some(e)
                && e@ == composite_size_error(pixels@.len(), width, height)),
    {
        assert(width as usize * height as usize <= usize::MAX) by (nonlinear_arith)
            requires
                width * height * 4 <= usize::MAX,
        ;
        let expected: usize = width as usize * height as usize * 4;
        if pixels.len() == expected {
            BackdropResult { request, width, height, pixels: Some(pixels), error: None }
        } else {
            let mut message = String::from_str("backdrop composite produced ");
            append_decimal(&mut message, pixels.len());
            message.append(" bytes; expected ");
            append_decimal(&mut message, expected);
            BackdropResult { request, width, height, pixels: None, error: Some(message) }
        }
    }

    /// The result of a capture that failed: the requested capture size, no
    /// pixels, the capture's error.
    pub fn from_capture_error(request: BackdropRequest, error: String) -> (r: Self)
        ensures
            r.request == request,
            r.width == request.capture.width,
            r.height == request.capture.height,
            r.pixels is None,
            r.error matches Some(e) && e@ == error@,
    {
        BackdropResult { request, width: request.capture.width, height: request.capture.height, pixels: None, error: Some(error) }
    }
}

/// A positive extent as `u32`.
pub fn checked_size(value: i32) -> (r: Option<u32>)
    ensures
        r == (if value > 0 { Some(value as u32) } else { None::<u32> }),
{
    if value > 0 {
        Some(value as u32)
    } else {
        None
    }
}

/// What the caller does after an update.
#[derive(Debug, Clone, Copy, PartialEq, Eq, Structural, Hash)]
pub enum PreviewStep {
    /// The overlay is hidden (no candidate, or an unusable rectangle).
    Hide,
    /// Nothing changed: skip the redraw.
    Coalesce,
    /// Move the overlay to the rectangle and show it; submit the backdrop
    /// request first when there is one.
    Show { request: Option<BackdropRequest>, x: i32, y: i32, width: u32, height: u32 },
}

/// What becomes of a finished capture.
#[derive(Debug, Clone, Copy, PartialEq, Eq, Structural, Hash)]
pub enum ResultDisposition {
    /// It answers an older request: drop it.
    StaleDrop,
    /// It is current but cannot be shown: hide the overlay.
    Fail,
    /// Show its pixels.
    Apply,
}

/// The overlay's recorded intent.
#[derive(Debug, Clone, Copy, PartialEq, Eq, Structural, Hash)]
pub struct PreviewState {
    pub generation: u64,
    pub visible: bool,
    pub candidate: Option<SnapCandidate>,
    pub geometry: Option<PreviewRect>,
    pub opacity: u8,
}

/// The generation after a hide: the next one, wrapping past zero to 1.
pub open spec fn next_generation(g: u64) -> u64 {
    if g == u64::MAX { 1 } else { (g + 1) as u64 }
}

/// The state after hiding: next generation, nothing shown or intended,
/// opacity kept.
pub open spec fn hidden(s: PreviewState) -> PreviewState {
    PreviewState {
        generation: next_generation(s.generation),
        visible: false,
        candidate: None,
        geometry: None,
        opacity: s.opacity,
    }
}

/// Shown with exactly this candidate, rectangle and opacity.
pub open spec fn current_spec(s: PreviewState, c: SnapCandidate, g: PreviewRect, o: u8) -> bool {
    s.visible && s.candidate == Some(c) && s.geometry == Some(g) && s.opacity == o
}

/// The request the recorded intent stands for, if it is complete and its
/// rectangle usable.
pub open spec fn request_spec(s: PreviewState) -> Option<BackdropRequest> {
    match (s.candidate, s.geometry) {
        (Some(c), Some(g)) => if g.width > 0 && g.height > 0 {
            Some(
                BackdropRequest {
                    generation: s.generation,
                    candidate: c,
                    geometry: g,
                    opacity: s.opacity,
                    capture: CaptureRect { x: g.x, y: g.y, width: g.width as u32, height: g.height as u32 },
                },
            )
        } else {
            None
        },
        _ => None,
    }
}

/// The update rule.
pub open spec fn update_spec(
    s: PreviewState,
    candidate: Option<SnapCandidate>,
    geometry: Option<PreviewRect>,
    opacity: u8,
) -> (PreviewState, PreviewStep) {
    match (candidate, geometry) {
        (Some(c), Some(g)) => if current_spec(s, c, g, opacity) {
            (s, PreviewStep::Coalesce)
        } else if !(g.width > 0 && g.height > 0) {
            (hidden(s), PreviewStep::Hide)
        } else if s.candidate == Some(c) && s.geometry == Some(g) && s.opacity == opacity {
            (s, PreviewStep::Show { request: None, x: g.x, y: g.y, width: g.width as u32, height: g.height as u32 })
        } else {
            let h = hidden(s);
            let n = PreviewState { candidate: Some(c), geometry: Some(g), opacity, ..h };
            (
                n,
                PreviewStep::Show {
                    request: request_spec(n),
                    x: g.x,
                    y: g.y,
                    width: g.width as u32,
                    height: g.height as u32,
                },
            )
        },
        _ => (hidden(s), PreviewStep::Hide),
    }
}

impl PreviewState {
    /// Hidden, nothing intended, first generation, default opacity.
    pub fn new() -> (r: Self)
        ensures
            r == (PreviewState {
                generation: 1,
                visible: false,
                candidate: None,
                geometry: None,
                opacity: DEFAULT_PREVIEW_OPACITY_PERCENT,
            }),
    {
        PreviewState {
            generation: 1,
            visible: false,
            candidate: None,
            geometry: None,
            opacity: DEFAULT_PREVIEW_OPACITY_PERCENT,
        }
    }

    /// True when the overlay already shows this candidate, rectangle and
    /// opacity, so the redraw can be skipped.
    pub fn is_current(&self, candidate: SnapCandidate, geometry: PreviewRect, opacity: u8) -> (r: bool)
        ensures
            r == current_spec(*self, candidate, geometry, opacity),
    {
        let same_candidate = match self.candidate {
            Some(c) => c == candidate,
            None => false,
        };
        let same_geometry = match self.geometry {
            Some(g) => g == geometry,
            None => false,
        };
        self.visible && same_candidate && same_geometry && self.opacity == opacity
    }

    /// Hide: forget the intent and move to the next generation, fencing
    /// off every earlier request.
    pub fn hide_overlay(&mut self)
        ensures
            *final(self) == hidden(*old(self)),
    {
        self.generation = if self.generation == u64::MAX { 1 } else { self.generation + 1 };
        self.visible = false;
        self.candidate = None;
        self.geometry = None;
    }

    /// The request for the current intent.
    pub fn current_request(&self) -> (r: Option<BackdropRequest>)
        ensures
            r == request_spec(*self),
    {
        match (self.candidate, self.geometry) {
            (Some(c), Some(g)) => match (checked_size(g.width), checked_size(g.height)) {
                (Some(w), Some(h)) => Some(
                    BackdropRequest {
                        generation: self.generation,
                        candidate: c,
                        geometry: g,
                        opacity: self.opacity,
                        capture: CaptureRect { x: g.x, y: g.y, width: w, height: h },
                    },
                ),
                _ => None,
            },
            _ => None,
        }
    }

    /// Show or move the preview for a drag candidate; `None` hides. A new
    /// intent hides first (fencing off older captures) and is recorded
    /// with a fresh request; the intent is kept even where no overlay can
    /// be shown.
    pub fn update(
        &mut self,
        candidate: Option<SnapCandidate>,
        geometry: Option<PreviewRect>,
        opacity: u8,
    ) -> (step: PreviewStep)
        ensures
            (*final(self), step) == update_spec(*old(self), candidate, geometry, opacity),
    {
        let (c, g) = match (candidate, geometry) {
            (Some(c), Some(g)) => (c, g),
            _ => {
                self.hide_overlay();
                return PreviewStep::Hide;
            },
        };
        if self.is_current(c, g, opacity) {
            return PreviewStep::Coalesce;
        }
        let (w, h) = match (checked_size(g.width), checked_size(g.height)) {
            (Some(w), Some(h)) => (w, h),
            _ => {
                self.hide_overlay();
                return PreviewStep::Hide;
            },
        };
        let same_candidate = match self.candidate {
            Some(x) => x == c,
            None => false,
        };
        let same_geometry = match self.geometry {
            Some(x) => x == g,
            None => false,
        };
        if same_candidate && same_geometry && self.opacity == opacity {
            return PreviewStep::Show { request: None, x: g.x, y: g.y, width: w, height: h };
        }
        self.hide_overlay();
        self.candidate = Some(c);
        self.geometry = Some(g);
        self.opacity = opacity;
        let request = self.current_request();
        PreviewStep::Show { request, x: g.x, y: g.y, width: w, height: h }
    }

    /// The overlay is up.
    pub fn shown(&mut self)
        ensures
            *final(self) == (PreviewState { visible: true, ..*old(self) }),
    {
        self.visible = true;
    }

    /// No overlay can be created (no display): nothing is visible, the
    /// intent stays recorded.
    pub fn surface_unavailable(&mut self)
        ensures
            *final(self) == (PreviewState { visible: false, ..*old(self) }),
    {
        self.visible = false;
    }

    /// What to do with a finished capture: drop it when it does not answer
    /// the current intent's request; fail (and hide) when it carries no
    /// pixels or no overlay surface exists; else apply it.
    pub fn result_disposition(&self, result: &BackdropResult, surface_ready: bool) -> (r: ResultDisposition)
        ensures
            r == (if request_spec(*self) != Some(result.request) {
                ResultDisposition::StaleDrop
            } else if result.pixels is None || !surface_ready {
                ResultDisposition::Fail
            } else {
                ResultDisposition::Apply
            }),
    {
        if !self.result_applies(result) {
            return ResultDisposition::StaleDrop;
        }
        if result.pixels.is_none() || !surface_ready {
            ResultDisposition::Fail
        } else {
            ResultDisposition::Apply
        }
    }

    /// Whether a finished capture applies now: only to the request of the
    /// current intent.
    pub fn result_applies(&self, result: &BackdropResult) -> (r: bool)
        ensures
            r == (request_spec(*self) == Some(result.request)),
    {
        match self.current_request() {
            Some(request) => result.matches(request),
            None => false,
        }
    }
}

/// Law: hiding fences off every request of the generation before it: a
/// result for such a request never applies afterwards, whatever intent is
/// recorded next.
pub proof fn lemma_hide_fences_stale(s: PreviewState, r: BackdropRequest, c: Option<SnapCandidate>, g: Option<
    PreviewRect,
>, o: u8)
    requires
        r.generation == s.generation,
    ensures
        request_spec(PreviewState { candidate: c, geometry: g, opacity: o, ..hidden(s) }) != Some(r),
{
}

/// Law: an update never makes the overlay visible by itself: a visible
/// result is the unchanged, already visible state; showing needs the
/// caller's confirmation ([`PreviewState::shown`]).
pub proof fn lemma_update_needs_confirmation(
    s: PreviewState,
    c: Option<SnapCandidate>,
    g: Option<PreviewRect>,
    o: u8,
)
    ensures
        update_spec(s, c, g, o).0.visible ==> update_spec(s, c, g, o).0 == s && s.visible,
{
}

/// The capture mailbox: one pending request (newer replaces older) and the
/// last request accepted, so a repeated same-state request is coalesced
/// before any capture work.
#[derive(Debug, Clone, Copy, PartialEq, Eq, Structural, Hash)]
pub struct CaptureMailbox {
    pub pending: Option<BackdropRequest>,
    pub last: Option<BackdropRequest>,
    pub stopped: bool,
}

impl CaptureMailbox {
    pub fn new() -> (r: Self)
        ensures
            r == (CaptureMailbox { pending: None, last: None, stopped: false }),
    {
        CaptureMailbox { pending: None, last: None, stopped: false }
    }

    /// Offer a request: refused once stopped or when it repeats the last
    /// accepted one; otherwise it replaces any pending request.
    pub fn try_send(&mut self, request: BackdropRequest) -> (accepted: bool)
        ensures
            accepted == (!old(self).stopped && old(self).last != Some(request)),
            *final(self) == (if accepted {
                CaptureMailbox { pending: Some(request), last: Some(request), ..*old(self) }
            } else {
                *old(self)
            }),
    {
        if self.stopped {
            return false;
        }
        let repeat = match self.last {
            Some(last) => last == request,
            None => false,
        };
        if repeat {
            return false;
        }
        self.pending = Some(request);
        self.last = Some(request);
        true
    }

    /// The worker takes the newest pending request, exactly once.
    pub fn take_pending(&mut self) -> (r: Option<BackdropRequest>)
        ensures
            r == old(self).pending,
            *final(self) == (CaptureMailbox { pending: None, ..*old(self) }),
    {
        let r = self.pending;
        self.pending = None;
        r
    }

    /// Shut the mailbox: no more requests are accepted.
    pub fn stop(&mut self)
        ensures
            *final(self) == (CaptureMailbox { stopped: true, ..*old(self) }),
    {
        self.stopped = true;
    }
}

} // verus!
