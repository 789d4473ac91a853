//! Title-bar paint decisions: what gets filled, where the app icon and
//! the control glyphs are blitted, and the 24-bit ZPixmap bytes a straight
//! RGBA raster is sent as. The caller issues the X requests; the skin's
//! metrics come in as arguments.

use vstd::prelude::*;
use crate::chrome::RgbaRaster;
use super::model::FrameSnapshot;

verus! {

/// Close-hover fill: the Flame accent red.
pub const CLOSE_HOVER_FILL: (u8, u8, u8) = (0xef, 0x40, 0x48);

/// The cursor theme the render runtime owns; a frame paint never overrides
/// a cursor of it.
pub const CURSOR_THEME: &'static str = "Breeze-Dark";

/// The core `cursor` font glyph (`left_ptr`) of the fallback cursor that a
/// frame paint defines when no themed cursor is present.
pub const BUNDLED_CURSOR_GLYPH: u16 = 68;

/// A filled rectangle in X's 16-bit fields.
#[derive(Debug, Clone, Copy, PartialEq, Eq, Structural, Hash)]
pub struct PaintRect {
    pub x: i16,
    pub y: i16,
    pub width: u16,
    pub height: u16,
}

/// Where a raster is put and the size it is scaled to.
#[derive(Debug, Clone, Copy, PartialEq, Eq, Structural, Hash)]
pub struct Blit {
    pub x: i16,
    pub y: i16,
    pub width: u32,
    pub height: u32,
}

/// What one frame paint does on a 24-bit frame.
#[derive(Debug, Clone, PartialEq, Eq)]
pub struct TitlebarPaint {
    /// The title-bar background fill.
    pub background: PaintRect,
    /// The red fill behind the close button, when it is hovered.
    pub close_hover: Option<PaintRect>,
    /// The title is drawn (an empty title is skipped).
    pub title_drawn: bool,
    /// The app icon's blit, when there is an icon.
    pub icon: Option<Blit>,
    /// The control glyphs' blits, rightmost control first.
    pub controls: Vec<Blit>,
}

/// A `u16` read back as `i16` (two's complement).
pub open spec fn wrap16(v: u16) -> i16 {
    if v <= 0x7fff {
        v as i16
    } else {
        (v - 0x1_0000int) as i16
    }
}

/// The low 16 bits of a nonnegative value, as `i16`.
pub open spec fn low16(v: int) -> i16 {
    let m = v % 0x1_0000;
    if m <= 0x7fff {
        m as i16
    } else {
        (m - 0x1_0000) as i16
    }
}

fn wrap16_exec(v: u16) -> (r: i16)
    ensures
        r == wrap16(v),
{
    if v <= 0x7fff {
        v as i16
    } else {
        let low: u16 = v - 0x8000;
        (low as i16) + i16::MIN
    }
}

fn low16_exec(v: i32) -> (r: i16)
    requires
        v >= 0,
    ensures
        r == low16(v as int),
{
    let m: i32 = v % 0x1_0000;
    if m <= 0x7fff {
        m as i16
    } else {
        (m - 0x1_0000) as i16
    }
}

fn trunc16_exec(v: i32) -> (r: i16)
    ensures
        r == low16(v as int),
{
    let shifted: i64 = v as i64 + 0x1_0000_0000;
    let m: i64 = shifted % 0x1_0000;
    assert(m == (v as int) % 0x1_0000) by (nonlinear_arith)
        requires
            shifted == v + 0x1_0000_0000,
            shifted >= 0,
            m == shifted % 0x1_0000,
    ;
    if m <= 0x7fff {
        m as i16
    } else {
        (m - 0x1_0000) as i16
    }
}

/// The title-bar height used for painting: at least 1.
pub open spec fn bar(titlebar_height: u16) -> int {
    if titlebar_height >= 1 { titlebar_height as int } else { 1 }
}

/// The close button's slot at the right edge of the title bar: a button
/// wide, the bar tall, its left edge read back as `i16`.
pub open spec fn close_hover_spec(outer_width: u32, titlebar_height: u16, button_width: u16) -> PaintRect {
    let w: u16 = if outer_width <= 0xffff { outer_width as u16 } else { 0xffff };
    let left: u16 = if w >= button_width { (w - button_width) as u16 } else { 0 };
    PaintRect { x: wrap16(left), y: 0, width: button_width, height: bar(titlebar_height) as u16 }
}

/// The close-hover fill of a frame whose close button is `button_width`
/// wide.
pub fn close_hover_rect(snapshot: &FrameSnapshot, button_width: u16) -> (r: PaintRect)
    ensures
        r == close_hover_spec(snapshot.outer.width, snapshot.titlebar_height, button_width),
{
    hover_slot(snapshot.outer.width, snapshot.titlebar_height, button_width)
}

fn hover_slot(outer_width: u32, titlebar_height: u16, button_width: u16) -> (r: PaintRect)
    ensures
        r == close_hover_spec(outer_width, titlebar_height, button_width),
{
    let w: u16 = if outer_width <= 0xffff { outer_width as u16 } else { 0xffff };
    let left: u16 = if w >= button_width { w - button_width } else { 0 };
    let height: u16 = if titlebar_height >= 1 { titlebar_height } else { 1 };
    PaintRect { x: wrap16_exec(left), y: 0, width: button_width, height }
}

/// The app icon: the plan's slot (at least 1) capped at the skin's visual
/// edge (and at least 1), at the left pad, centred in the bar.
pub open spec fn icon_blit_spec(titlebar_height: u16, slot: u16, icon_edge: u16, icon_pad_left: i32) -> Blit {
    let s1 = if slot >= 1 { slot as int } else { 1 };
    let capped = if s1 <= icon_edge { s1 } else { icon_edge as int };
    let px = if capped >= 1 { capped } else { 1 };
    let free = if bar(titlebar_height) - px >= 0 { bar(titlebar_height) - px } else { 0 };
    Blit { x: low16(icon_pad_left as int), y: (free / 2) as i16, width: px as u32, height: px as u32 }
}

/// Control `k` from the right: its button tiles leftwards from the frame's
/// right edge and the glyph (at least 1 pixel) is centred in it; a slot
/// left of the frame puts the glyph at 0.
pub open spec fn control_blit_spec(k: int, frame_width: u16, titlebar_height: u16, button_w: u16, glyph_edge: u16) -> Blit {
    let ge: int = if glyph_edge >= 1 { glyph_edge as int } else { 1 };
    let control_x = frame_width - (k + 1) * button_w;
    let glyph_x = control_x + (if button_w - ge >= 0 { button_w - ge } else { 0 }) / 2;
    let free = if bar(titlebar_height) - ge >= 0 { bar(titlebar_height) - ge } else { 0 };
    Blit {
        x: low16(if glyph_x >= 0 { glyph_x } else { 0 }),
        y: (free / 2) as i16,
        width: ge as u32,
        height: ge as u32,
    }
}

/// The paint of one frame, or `None` when the frame is not 24 bits deep
/// (nothing is drawn then).
pub open spec fn paint_plan_ok(
    r: Option<TitlebarPaint>,
    frame_width: u16,
    depth: u8,
    titlebar_height: u16,
    outer_width: u32,
    close_hover: bool,
    title_empty: bool,
    slot: u16,
    has_icon: bool,
    n_controls: usize,
    button_w: u16,
    glyph_edge: u16,
    icon_edge: u16,
    icon_pad_left: i32,
) -> bool {
    if depth != 24 {
        r is None
    } else {
        r matches Some(p) && {
            &&& p.background == (PaintRect { x: 0, y: 0, width: frame_width, height: bar(titlebar_height) as u16 })
            &&& p.close_hover == (if close_hover {
                Some(close_hover_spec(outer_width, titlebar_height, button_w))
            } else {
                None
            })
            &&& p.title_drawn == !title_empty
            &&& p.icon == (if has_icon {
                Some(icon_blit_spec(titlebar_height, slot, icon_edge, icon_pad_left))
            } else {
                None
            })
            &&& p.controls@ == Seq::new(
                n_controls as nat,
                |k: int| control_blit_spec(k, frame_width, titlebar_height, button_w, glyph_edge),
            )
        }
    }
}

/// Plan the paint of a frame `frame_width` wide and `depth` bits deep whose
/// outer rectangle is `outer_width` wide: the background fill, the
/// close-hover fill, whether the title is drawn, the icon blit at `slot`,
/// and `n_controls` control blits, rightmost first (the last control glyph
/// goes to the rightmost button).
pub fn paint_plan(
    frame_width: u16,
    depth: u8,
    titlebar_height: u16,
    outer_width: u32,
    close_hover: bool,
    title_empty: bool,
    slot: u16,
    has_icon: bool,
    n_controls: usize,
    button_w: u16,
    glyph_edge: u16,
    icon_edge: u16,
    icon_pad_left: i32,
) -> (r: Option<TitlebarPaint>)
    requires
        frame_width - n_controls * button_w >= i32::MIN,
    ensures
        paint_plan_ok(
            r,
            frame_width,
            depth,
            titlebar_height,
            outer_width,
            close_hover,
            title_empty,
            slot,
            has_icon,
            n_controls,
            button_w,
            glyph_edge,
            icon_edge,
            icon_pad_left,
        ),
{
    if depth != 24 {
        return None;
    }
    let tb: i32 = if titlebar_height >= 1 { titlebar_height as i32 } else { 1 };
    let background = PaintRect { x: 0, y: 0, width: frame_width, height: tb as u16 };
    let hover = if close_hover {
        Some(hover_slot(outer_width, titlebar_height, button_w))
    } else {
        None
    };
    let icon = if has_icon {
        let s1: u32 = if slot >= 1 { slot as u32 } else { 1 };
        let capped: u32 = if s1 <= icon_edge as u32 { s1 } else { icon_edge as u32 };
        let px: u32 = if capped >= 1 { capped } else { 1 };
        let free: i32 = if tb - px as i32 >= 0 { tb - px as i32 } else { 0 };
        Some(Blit { x: trunc16_exec(icon_pad_left), y: (free / 2) as i16, width: px, height: px })
    } else {
        None
    };
    let ge: i32 = if glyph_edge >= 1 { glyph_edge as i32 } else { 1 };
    let bw: i32 = button_w as i32;
    let offset: i32 = (if bw - ge >= 0 { bw - ge } else { 0 }) / 2;
    let free: i32 = if tb - ge >= 0 { tb - ge } else { 0 };
    let glyph_y: i16 = (free / 2) as i16;
    let mut controls: Vec<Blit> = Vec::new();
    let mut control_x: i32 = frame_width as i32;
    let mut k: usize = 0;
    while k < n_controls
        invariant
            0 <= k <= n_controls,
            frame_width - n_controls * button_w >= i32::MIN,
            bw == button_w,
            ge == (if glyph_edge >= 1 { glyph_edge as int } else { 1 }),
            tb == bar(titlebar_height),
            offset == (if bw - ge >= 0 { bw - ge } else { 0 }) / 2,
            glyph_y == ((if tb - ge >= 0 { tb - ge } else { 0 }) / 2) as i16,
            control_x == frame_width - k * button_w,
            controls@ == Seq::new(
                k as nat,
                |j: int| control_blit_spec(j, frame_width, titlebar_height, button_w, glyph_edge),
            ),
        decreases n_controls - k,
    {
        proof {
            assert((k + 1) * button_w == k * button_w + button_w) by (nonlinear_arith);
            assert((k + 1) * button_w <= n_controls * button_w) by (nonlinear_arith)
                requires
                    k + 1 <= n_controls,
            ;
        }
        control_x = control_x - bw;
        let glyph_x: i32 = control_x + offset;
        let x = low16_exec(if glyph_x >= 0 { glyph_x } else { 0 });
        let b = Blit { x, y: glyph_y, width: ge as u32, height: ge as u32 };
        controls.push(b);
        proof {
            assert(b == control_blit_spec(k as int, frame_width, titlebar_height, button_w, glyph_edge));
            assert(controls@ =~= Seq::new(
                (k + 1) as nat,
                |j: int| control_blit_spec(j, frame_width, titlebar_height, button_w, glyph_edge),
            ));
        }
        k += 1;
    }
    Some(TitlebarPaint { background, close_hover: hover, title_drawn: !title_empty, icon, controls })
}

/// A paint step that did not happen, and why.
#[derive(Debug, Clone, Copy, PartialEq, Eq, Structural, Hash)]
pub enum PaintSkip {
    CursorUnavailable,
    ShapeUnavailable,
    Non24BitFrame,
    TitleEmpty,
    IconBlitFailed,
    ControlBlitFailed,
}

impl PaintSkip {
    /// The reason's name as the paint log writes it.
    pub fn reason(&self) -> (r: &'static str)
        ensures
            r@ == match *self {
                PaintSkip::CursorUnavailable => "cursor-unavailable"@,
                PaintSkip::ShapeUnavailable => "shape-unavailable"@,
                PaintSkip::Non24BitFrame => "non-24bit-frame"@,
                PaintSkip::TitleEmpty => "title-empty"@,
                PaintSkip::IconBlitFailed => "icon-blit-failed"@,
                PaintSkip::ControlBlitFailed => "control-blit-failed"@,
            },
    {
        match self {
            PaintSkip::CursorUnavailable => "cursor-unavailable",
            PaintSkip::ShapeUnavailable => "shape-unavailable",
            PaintSkip::Non24BitFrame => "non-24bit-frame",
            PaintSkip::TitleEmpty => "title-empty",
            PaintSkip::IconBlitFailed => "icon-blit-failed",
            PaintSkip::ControlBlitFailed => "control-blit-failed",
        }
    }
}

/// What one frame paint did: each step's success and the skipped steps in
/// the order they were met.
#[derive(Debug, Clone, PartialEq, Eq)]
pub struct PaintOutcome {
    pub cursor_defined: bool,
    pub shape_applied: bool,
    pub background_filled: bool,
    pub title_drawn: bool,
    pub icons_blitted: u8,
    pub skipped: Vec<PaintSkip>,
}

/// How many control blits succeeded from index `i` on before the first
/// failure.
pub open spec fn blit_run(results: Seq<bool>, i: int) -> int
    decreases results.len() - i,
{
    if i < 0 || i >= results.len() || !results[i] {
        0
    } else {
        1 + blit_run(results, i + 1)
    }
}

/// `v` when `cond` holds, else nothing.
pub open spec fn skip_if(cond: bool, v: PaintSkip) -> Seq<PaintSkip> {
    if cond {
        seq![v]
    } else {
        Seq::empty()
    }
}

/// The outcome of a frame paint from what each step reported: the cursor
/// define and the shape request, the frame's depth (nothing is drawn below
/// 24 bits), the title, the icon blit (`None` when there is no icon) and
/// the control blits in the order they were tried; the control blits stop
/// at the first failure.
pub open spec fn paint_outcome_ok(
    r: PaintOutcome,
    cursor_ok: bool,
    shape_ok: bool,
    depth: u8,
    title_empty: bool,
    icon_blit: Option<bool>,
    control_blits: Seq<bool>,
) -> bool {
    let head = skip_if(!cursor_ok, PaintSkip::CursorUnavailable) + skip_if(
        !shape_ok,
        PaintSkip::ShapeUnavailable,
    );
    &&& r.cursor_defined == cursor_ok
    &&& r.shape_applied == shape_ok
    &&& if depth != 24 {
        &&& !r.background_filled
        &&& !r.title_drawn
        &&& r.icons_blitted == 0
        &&& r.skipped@ == head.push(PaintSkip::Non24BitFrame)
    } else {
        let icon_ok: int = if icon_blit == Some(true) { 1 } else { 0 };
        let run = blit_run(control_blits, 0);
        &&& r.background_filled
        &&& r.title_drawn == !title_empty
        &&& r.icons_blitted == (if icon_ok + run <= 255 { icon_ok + run } else { 255 })
        &&& r.skipped@ == head + skip_if(title_empty, PaintSkip::TitleEmpty) + skip_if(
            icon_blit == Some(false),
            PaintSkip::IconBlitFailed,
        ) + skip_if(run < control_blits.len(), PaintSkip::ControlBlitFailed)
    }
}

/// The outcome a frame paint reports from what its steps did.
pub fn paint_outcome(
    cursor_ok: bool,
    shape_ok: bool,
    depth: u8,
    title_empty: bool,
    icon_blit: Option<bool>,
    control_blits: &[bool],
) -> (r: PaintOutcome)
    ensures
        paint_outcome_ok(r, cursor_ok, shape_ok, depth, title_empty, icon_blit, control_blits@),
{
    let mut skipped: Vec<PaintSkip> = Vec::new();
    if !cursor_ok {
        skipped.push(PaintSkip::CursorUnavailable);
    }
    if !shape_ok {
        skipped.push(PaintSkip::ShapeUnavailable);
    }
    let ghost head = skipped@;
    assert(head =~= skip_if(!cursor_ok, PaintSkip::CursorUnavailable) + skip_if(
        !shape_ok,
        PaintSkip::ShapeUnavailable,
    ));
    if depth != 24 {
        skipped.push(PaintSkip::Non24BitFrame);
        return PaintOutcome {
            cursor_defined: cursor_ok,
            shape_applied: shape_ok,
            background_filled: false,
            title_drawn: false,
            icons_blitted: 0,
            skipped,
        };
    }
    if title_empty {
        skipped.push(PaintSkip::TitleEmpty);
    }
    let mut blitted: u8 = 0;
    match icon_blit {
        Some(true) => {
            blitted = 1;
        },
        Some(false) => {
            skipped.push(PaintSkip::IconBlitFailed);
        },
        None => {},
    }
    let ghost before_controls = skipped@;
    assert(before_controls =~= head + skip_if(title_empty, PaintSkip::TitleEmpty) + skip_if(
        icon_blit == Some(false),
        PaintSkip::IconBlitFailed,
    ));
    let ghost icon_ok: int = if icon_blit == Some(true) { 1 } else { 0 };
    let mut i: usize = 0;
    while i < control_blits.len()
        invariant_except_break
            i <= control_blits.len(),
            blit_run(control_blits@, 0) == i + blit_run(control_blits@, i as int),
            blitted == (if icon_ok + i <= 255 { icon_ok + i } else { 255 }),
            skipped@ == before_controls,
        ensures
            blitted == (if icon_ok + blit_run(control_blits@, 0) <= 255 {
                icon_ok + blit_run(control_blits@, 0)
            } else {
                255
            }),
            skipped@ == before_controls + skip_if(
                blit_run(control_blits@, 0) < control_blits@.len(),
                PaintSkip::ControlBlitFailed,
            ),
        decreases control_blits.len() - i,
    {
        if control_blits[i] {
            blitted = if blitted < 255 { blitted + 1 } else { 255 };
            i += 1;
        } else {
            skipped.push(PaintSkip::ControlBlitFailed);
            break;
        }
    }
    PaintOutcome {
        cursor_defined: cursor_ok,
        shape_applied: shape_ok,
        background_filled: true,
        title_drawn: !title_empty,
        icons_blitted: blitted,
        skipped,
    }
}

/// An extent taken as at least 1.
pub open spec fn at_least_one(v: u32) -> int {
    if v >= 1 {
        v as int
    } else {
        1
    }
}

/// The source pixel (R, G, B, A) nearest-neighbour scaling picks for
/// destination pixel `(x, y)`; opaque black when it lies past the buffer.
pub open spec fn source_pixel(pixels: Seq<u8>, sw: int, sh: int, w: int, h: int, x: int, y: int) -> Seq<u8> {
    let sx = if x * sw / w < sw - 1 { x * sw / w } else { sw - 1 };
    let sy = if y * sh / h < sh - 1 { y * sh / h } else { sh - 1 };
    let off = (sy * sw + sx) * 4;
    if off + 4 <= pixels.len() {
        pixels.subrange(off, off + 4)
    } else {
        seq![0u8, 0u8, 0u8, 255u8]
    }
}

/// One RGBA pixel as a 24-bit ZPixmap word: `B G R 0` for an LSB-first
/// server, `0 R G B` otherwise.
pub open spec fn packed(px: Seq<u8>, lsb: bool) -> Seq<u8> {
    if lsb {
        seq![px[2], px[1], px[0], 0u8]
    } else {
        seq![0u8, px[0], px[1], px[2]]
    }
}

/// The first `x` words of destination row `y`.
pub open spec fn zpix_row(pixels: Seq<u8>, sw: int, sh: int, w: int, h: int, lsb: bool, y: int, x: int) -> Seq<u8>
    decreases x,
{
    if x <= 0 {
        Seq::empty()
    } else {
        zpix_row(pixels, sw, sh, w, h, lsb, y, x - 1) + packed(source_pixel(pixels, sw, sh, w, h, x - 1, y), lsb)
    }
}

/// The first `y` destination rows.
pub open spec fn zpix_rows(pixels: Seq<u8>, sw: int, sh: int, w: int, h: int, lsb: bool, y: int) -> Seq<u8>
    decreases y,
{
    if y <= 0 {
        Seq::empty()
    } else {
        zpix_rows(pixels, sw, sh, w, h, lsb, y - 1) + zpix_row(pixels, sw, sh, w, h, lsb, y - 1, w)
    }
}

/// A straight RGBA raster of `src_w x src_h` scaled (nearest neighbour) to
/// `w x h` and packed row by row as 24-bit ZPixmap words; every extent
/// counts as at least 1.
pub open spec fn zpixmap_spec(pixels: Seq<u8>, src_w: u32, src_h: u32, w: u32, h: u32, lsb: bool) -> Seq<u8> {
    zpix_rows(pixels, at_least_one(src_w), at_least_one(src_h), at_least_one(w), at_least_one(h), lsb, at_least_one(h))
}

fn push_pixel(out: &mut Vec<u8>, pixels: &[u8], off: usize, lsb: bool)
    requires
        off <= usize::MAX - 4,
    ensures
        final(out)@ == old(out)@ + packed(
            if off + 4 <= pixels@.len() {
                pixels@.subrange(off as int, off + 4)
            } else {
                seq![0u8, 0u8, 0u8, 255u8]
            },
            lsb,
        ),
{
    let ghost before = out@;
    let (r, g, b) = if off + 4 <= pixels.len() {
        (pixels[off], pixels[off + 1], pixels[off + 2])
    } else {
        (0u8, 0u8, 0u8)
    };
    if lsb {
        out.push(b);
        out.push(g);
        out.push(r);
        out.push(0);
    } else {
        out.push(0);
        out.push(r);
        out.push(g);
        out.push(b);
    }
    assert(out@ =~= before + packed(
        if off + 4 <= pixels@.len() {
            pixels@.subrange(off as int, off + 4)
        } else {
            seq![0u8, 0u8, 0u8, 255u8]
        },
        lsb,
    ));
}

fn source_offset(sw: usize, sh: usize, w: usize, h: usize, x: usize, y: usize) -> (off: usize)
    requires
        1 <= sw <= u32::MAX,
        1 <= sh <= u32::MAX,
        1 <= w <= u32::MAX,
        1 <= h <= u32::MAX,
        x < w,
        y < h,
        sw * sh * 4 <= usize::MAX,
    ensures
        ({
            let (xi, yi, swi, shi, wi, hi) = (x as int, y as int, sw as int, sh as int, w as int, h as int);
            let sx = if xi * swi / wi < swi - 1 { xi * swi / wi } else { swi - 1 };
            let sy = if yi * shi / hi < shi - 1 { yi * shi / hi } else { shi - 1 };
            off == (sy * swi + sx) * 4
        }),
        off + 4 <= sw * sh * 4,
{
    assert(x * sw <= 0xffff_ffffu64 * 0xffff_ffffu64) by (nonlinear_arith)
        requires
            x <= 0xffff_ffff,
            sw <= 0xffff_ffff,
    ;
    assert(y * sh <= 0xffff_ffffu64 * 0xffff_ffffu64) by (nonlinear_arith)
        requires
            y <= 0xffff_ffff,
            sh <= 0xffff_ffff,
    ;
    let qx: u64 = (x as u64 * sw as u64) / (w as u64);
    let qy: u64 = (y as u64 * sh as u64) / (h as u64);
    let sx: usize = if qx < (sw - 1) as u64 { qx as usize } else { sw - 1 };
    let sy: usize = if qy < (sh - 1) as u64 { qy as usize } else { sh - 1 };
    assert(sy * sw + sx + 1 <= sh * sw) by (nonlinear_arith)
        requires
            sy < sh,
            sx < sw,
    ;
    assert(sh * sw == sw * sh) by (nonlinear_arith);
    (sy * sw + sx) * 4
}

/// The 24-bit ZPixmap payload of a straight RGBA raster scaled to
/// `w x h` (the bytes the title-bar blits send).
pub fn zpixmap(raster: &RgbaRaster, w: u32, h: u32, lsb: bool) -> (r: Vec<u8>)
    requires
        at_least_one(w) * at_least_one(h) * 4 <= usize::MAX,
        at_least_one(raster.width) * at_least_one(raster.height) * 4 <= usize::MAX,
    ensures
        r@ == zpixmap_spec(raster.pixels@, raster.width, raster.height, w, h, lsb),
{
    let pixels = raster.pixels.as_slice();
    let src_w = raster.width;
    let src_h = raster.height;
    let ww: usize = if w >= 1 { w as usize } else { 1 };
    let hh: usize = if h >= 1 { h as usize } else { 1 };
    let sw: usize = if src_w >= 1 { src_w as usize } else { 1 };
    let sh: usize = if src_h >= 1 { src_h as usize } else { 1 };
    let ghost gs = pixels@;
    let mut out: Vec<u8> = Vec::new();
    let mut y: usize = 0;
    while y < hh
        invariant
            y <= hh,
            ww == at_least_one(w),
            hh == at_least_one(h),
            sw == at_least_one(src_w),
            sh == at_least_one(src_h),
            sw * sh * 4 <= usize::MAX,
            gs == pixels@,
            out@ == zpix_rows(gs, sw as int, sh as int, ww as int, hh as int, lsb, y as int),
        decreases hh - y,
    {
        let mut x: usize = 0;
        let ghost rows = out@;
        while x < ww
            invariant
                x <= ww,
                y < hh,
                ww == at_least_one(w),
                hh == at_least_one(h),
                sw == at_least_one(src_w),
                sh == at_least_one(src_h),
                sw * sh * 4 <= usize::MAX,
                gs == pixels@,
                rows == zpix_rows(gs, sw as int, sh as int, ww as int, hh as int, lsb, y as int),
                out@ == rows + zpix_row(gs, sw as int, sh as int, ww as int, hh as int, lsb, y as int, x as int),
            decreases ww - x,
        {
            let off = source_offset(sw, sh, ww, hh, x, y);
            let ghost before = out@;
            push_pixel(&mut out, pixels, off, lsb);
            proof {
                assert(source_pixel(gs, sw as int, sh as int, ww as int, hh as int, x as int, y as int) == (if off + 4
                    <= gs.len() {
                    gs.subrange(off as int, off + 4)
                } else {
                    seq![0u8, 0u8, 0u8, 255u8]
                }));
                assert(out@ =~= rows + zpix_row(gs, sw as int, sh as int, ww as int, hh as int, lsb, y as int, x + 1));
            }
            x += 1;
        }
        assert(out@ =~= zpix_rows(gs, sw as int, sh as int, ww as int, hh as int, lsb, y + 1));
        y += 1;
    }
    out
}

} // verus!
