//! Title-bar chrome values: control roles and materials, window icons and
//! title measurement.

use vstd::prelude::*;
use crate::arith::{mul_u64, trunc_half};

verus! {

/// Frame border width (a 1-pixel border owned by the window manager).
pub const FRAME_BORDER: u16 = 1;

/// The window manager's view of control roles.
#[derive(Debug, Clone, Copy, PartialEq, Eq, Structural, Hash)]
pub enum ControlRole {
    Minimize,
    Maximize,
    Restore,
    Close,
}

/// Control order and button width of a title bar.
#[derive(Debug, Clone, Copy, PartialEq, Eq)]
pub struct ControlPolicy {
    pub roles: [ControlRole; 3],
    pub button_width: u16,
}

impl Default for ControlPolicy {
    /// The policy of a floating window.
    fn default() -> (r: Self)
        ensures
            r.roles@ == seq![ControlRole::Minimize, ControlRole::Maximize, ControlRole::Close],
            r.button_width == crate::frame::layout::BUTTON_WIDTH,
    {
        Self::for_state(false, false)
    }
}

impl ControlPolicy {
    /// Minimize, maximize, close; the middle slot becomes restore when the
    /// window is maximized or fullscreen, so the hit target keeps its
    /// geometry while the glyph swaps. Buttons are the frame layout's
    /// width.
    pub fn for_state(maximized: bool, fullscreen: bool) -> (r: Self)
        ensures
            r.roles@ == seq![
                ControlRole::Minimize,
                if maximized || fullscreen { ControlRole::Restore } else { ControlRole::Maximize },
                ControlRole::Close,
            ],
            r.button_width == crate::frame::layout::BUTTON_WIDTH,
    {
        let middle = if maximized || fullscreen {
            ControlRole::Restore
        } else {
            ControlRole::Maximize
        };
        let r = ControlPolicy {
            roles: [ControlRole::Minimize, middle, ControlRole::Close],
            button_width: crate::frame::layout::BUTTON_WIDTH as u16,
        };
        assert(r.roles@ =~= seq![ControlRole::Minimize, middle, ControlRole::Close]);
        r
    }
}

/// A validated `_NET_WM_ICON` image: EWMH ARGB32 cardinals, not
/// premultiplied, row-major.
#[derive(Debug, Clone, PartialEq, Eq)]
pub struct IconImage {
    pub width: u32,
    pub height: u32,
    pub argb: Vec<u32>,
}

/// An icon as `(width, height, pixels)`.
pub type IconModel = (u32, u32, Seq<u32>);

pub open spec fn icon_model(i: IconImage) -> IconModel {
    (i.width, i.height, i.argb@)
}

pub open spec fn opt_model(best: Option<IconImage>) -> Option<IconModel> {
    match best {
        Some(b) => Some(icon_model(b)),
        None => None,
    }
}

pub open spec fn area_of(best: Option<IconModel>) -> int {
    match best {
        Some(b) => b.0 * b.1,
        None => 0,
    }
}

/// Scan `_NET_WM_ICON` cardinals from `cursor`: each image is `width`,
/// `height` and `width * height` pixels. A zero dimension, a pixel count
/// that overflows `u32`, a truncated image or trailing words reject the
/// whole payload; otherwise the largest image wins (the later one on a
/// tie).
pub open spec fn icon_scan(c: Seq<u32>, cursor: int, best: Option<IconModel>) -> Option<IconModel>
    decreases c.len() - cursor,
{
    if cursor < 0 || cursor > c.len() {
        None
    } else if cursor + 2 <= c.len() {
        let w = c[cursor];
        let h = c[cursor + 1];
        let count = w * h;
        if w == 0 || h == 0 || count > u32::MAX || cursor + 2 + count > c.len() {
            None
        } else {
            let img = c.subrange(cursor + 2, cursor + 2 + count);
            let next = if count >= area_of(best) { Some((w, h, img)) } else { best };
            icon_scan(c, cursor + 2 + count, next)
        }
    } else if cursor != c.len() {
        None
    } else {
        match best {
            Some(b) => if b.2.len() > 0 { Some(b) } else { None },
            None => None,
        }
    }
}

/// Parse concatenated `_NET_WM_ICON` cardinals and select the largest valid
/// image.
pub fn parse_net_wm_icon(cardinals: &[u32]) -> (r: Option<IconImage>)
    ensures
        r is Some == icon_scan(cardinals@, 0, None) is Some,
        r matches Some(img) ==> icon_model(img) == icon_scan(cardinals@, 0, None).unwrap(),
{
    let n = cardinals.len();
    let mut cursor: usize = 0;
    let mut best: Option<IconImage> = None;
    while cursor < n && n - cursor >= 2
        invariant
            n == cardinals@.len(),
            cursor <= n,
            icon_scan(cardinals@, 0, None) == icon_scan(cardinals@, cursor as int, opt_model(best)),
            best matches Some(b) ==> b.argb@.len() == b.width * b.height,
        decreases n - cursor,
    {
        let width = cardinals[cursor];
        let height = cardinals[cursor + 1];
        let start = cursor + 2;
        if width == 0 || height == 0 {
            return None;
        }
        let count64: u64 = mul_u64(width, height);
        if count64 > u32::MAX as u64 {
            return None;
        }
        let count = count64 as usize;
        if count > n - start {
            return None;
        }
        let mut argb: Vec<u32> = Vec::new();
        let mut k: usize = 0;
        while k < count
            invariant
                k <= count,
                start + count <= n,
                n == cardinals@.len(),
                argb@ == cardinals@.subrange(start as int, start + k),
            decreases count - k,
        {
            argb.push(cardinals[start + k]);
            proof {
                assert(cardinals@.subrange(start as int, start + k + 1) =~= cardinals@.subrange(start as int, start + k).push(cardinals@[start + k]));
            }
            k += 1;
        }
        let area: u64 = count64;
        let best_area: u64 = match &best {
            Some(image) => mul_u64(image.width, image.height),
            None => 0,
        };
        if area >= best_area {
            best = Some(IconImage { width, height, argb });
        }
        cursor = start + count;
    }
    if cursor != n {
        return None;
    }
    match best {
        Some(image) => if image.argb.len() > 0 { Some(image) } else { None },
        None => None,
    }
}

/// Law: a parsed icon's pixel buffer is exactly `width * height` pixels,
/// with both dimensions positive.
pub proof fn lemma_parsed_icon_consistent(c: Seq<u32>, cursor: int, best: Option<IconModel>)
    requires
        best matches Some(b) ==> b.2.len() == b.0 * b.1 && b.0 > 0 && b.1 > 0,
    ensures
        icon_scan(c, cursor, best) matches Some(m) ==> m.2.len() == m.0 * m.1 && m.0 > 0 && m.1 > 0,
    decreases c.len() - cursor,
{
    if 0 <= cursor && cursor + 2 <= c.len() {
        let w = c[cursor];
        let h = c[cursor + 1];
        let count = w * h;
        if !(w == 0 || h == 0 || count > u32::MAX || cursor + 2 + count > c.len()) {
            let img = c.subrange(cursor + 2, cursor + 2 + count);
            let next = if count >= area_of(best) { Some((w, h, img)) } else { best };
            lemma_parsed_icon_consistent(c, cursor + 2 + count, next);
        }
    }
}

/// A well-formed `_NET_WM_ICON` image: positive dimensions whose pixel
/// count fits in a cardinal, and exactly that many pixels.
pub open spec fn icon_image_ok(m: IconModel) -> bool {
    m.0 > 0 && m.1 > 0 && m.0 * m.1 <= u32::MAX && m.2.len() == m.0 * m.1
}

/// The `_NET_WM_ICON` payload that lists `imgs` in order: each image's
/// width and height, then its pixels.
pub open spec fn icon_payload(imgs: Seq<IconModel>) -> Seq<u32>
    decreases imgs.len(),
{
    if imgs.len() == 0 {
        Seq::empty()
    } else {
        seq![imgs[0].0, imgs[0].1] + imgs[0].2 + icon_payload(imgs.drop_first())
    }
}

proof fn lemma_icon_scan_payload(c: Seq<u32>, cursor: int, imgs: Seq<IconModel>, best: Option<IconModel>)
    requires
        0 <= cursor <= c.len(),
        c.subrange(cursor, c.len() as int) == icon_payload(imgs),
        forall|i: int| 0 <= i < imgs.len() ==> icon_image_ok(#[trigger] imgs[i]),
        best matches Some(b) ==> icon_image_ok(b),
    ensures
        imgs.len() > 0 || best is Some ==> icon_scan(c, cursor, best) is Some,
        icon_scan(c, cursor, best) matches Some(m) ==> {
            &&& forall|i: int| 0 <= i < imgs.len() ==> icon_area(m) >= #[trigger] icon_area(imgs[i])
            &&& best matches Some(b) ==> icon_area(m) >= icon_area(b)
            &&& (best == Some(m) && forall|i: int| 0 <= i < imgs.len() ==> icon_area(m) > #[trigger] icon_area(imgs[i]))
                || exists|j: int|
                0 <= j < imgs.len() && imgs[j] == m && forall|i: int|
                    j < i < imgs.len() ==> icon_area(m) > #[trigger] icon_area(imgs[i])
        },
    decreases imgs.len(),
{
    if imgs.len() == 0 {
        assert(c.subrange(cursor, c.len() as int).len() == 0);
        if let Some(b) = best {
            assert(b.0 * b.1 > 0) by (nonlinear_arith)
                requires
                    b.0 > 0,
                    b.1 > 0,
            ;
        }
    } else {
        let first = imgs[0];
        let rest = imgs.drop_first();
        let (w, h) = (first.0, first.1);
        let count = w * h;
        let tail = icon_payload(rest);
        assert(icon_payload(imgs) == seq![w, h] + first.2 + tail);
        let p = c.subrange(cursor, c.len() as int);
        assert(p.len() == 2 + count + tail.len());
        assert(c[cursor] == p[0]);
        assert(c[cursor + 1] == p[1]);
        assert(c.subrange(cursor + 2, cursor + 2 + count) =~= first.2) by {
            assert forall|j: int| 0 <= j < count implies c.subrange(cursor + 2, cursor + 2 + count)[j] == first.2[j] by {
                assert(c[cursor + 2 + j] == p[2 + j]);
            }
        }
        assert(c.subrange(cursor + 2 + count, c.len() as int) =~= tail) by {
            assert forall|j: int| 0 <= j < tail.len() implies c.subrange(cursor + 2 + count, c.len() as int)[j]
                == tail[j] by {
                assert(c[cursor + 2 + count + j] == p[2 + count + j]);
            }
        }
        let next = if count >= area_of(best) { Some(first) } else { best };
        assert forall|i: int| 0 <= i < rest.len() implies icon_image_ok(#[trigger] rest[i]) by {
            assert(rest[i] == imgs[i + 1]);
        }
        lemma_icon_scan_payload(c, cursor + 2 + count, rest, next);
        if icon_scan(c, cursor, best) is Some {
            let m = icon_scan(c, cursor, best).unwrap();
            assert(icon_area(m) >= icon_area(first));
            assert forall|i: int| 0 <= i < imgs.len() implies icon_area(m) >= #[trigger] icon_area(imgs[i]) by {
                if i > 0 {
                    assert(imgs[i] == rest[i - 1]);
                }
            }
            if next == Some(m) && forall|i: int| 0 <= i < rest.len() ==> icon_area(m) > #[trigger] icon_area(rest[i]) {
                if count >= area_of(best) {
                    assert forall|i: int| 0 < i < imgs.len() implies icon_area(m) > #[trigger] icon_area(imgs[i]) by {
                        assert(imgs[i] == rest[i - 1]);
                    }
                    assert(imgs[0] == m);
                } else {
                    assert forall|i: int| 0 <= i < imgs.len() implies icon_area(m) > #[trigger] icon_area(imgs[i]) by {
                        if i > 0 {
                            assert(imgs[i] == rest[i - 1]);
                        }
                    }
                }
            } else {
                let j = choose|j: int|
                    0 <= j < rest.len() && rest[j] == m && forall|i: int|
                        j < i < rest.len() ==> icon_area(m) > #[trigger] icon_area(rest[i]);
                assert(imgs[j + 1] == m);
                assert forall|i: int| j + 1 < i < imgs.len() implies icon_area(m) > #[trigger] icon_area(imgs[i]) by {
                    assert(imgs[i] == rest[i - 1]);
                }
            }
        }
    }
}

/// The number of pixels of an image.
pub open spec fn icon_area(m: IconModel) -> int {
    m.0 * m.1
}

/// Law: of a well-formed payload listing one or more images, the parse
/// selects a listed image that no listed image is larger than, and no
/// later image is as large (the last of the largest).
pub proof fn lemma_icon_selects_largest(imgs: Seq<IconModel>)
    requires
        imgs.len() > 0,
        forall|i: int| 0 <= i < imgs.len() ==> icon_image_ok(#[trigger] imgs[i]),
    ensures
        icon_scan(icon_payload(imgs), 0, None) matches Some(m) && (forall|i: int|
            0 <= i < imgs.len() ==> icon_area(m) >= #[trigger] icon_area(imgs[i])) && exists|j: int|
            0 <= j < imgs.len() && imgs[j] == m && forall|i: int|
                j < i < imgs.len() ==> icon_area(m) > #[trigger] icon_area(imgs[i]),
{
    let c = icon_payload(imgs);
    assert(c.subrange(0, c.len() as int) =~= c);
    lemma_icon_scan_payload(c, 0, imgs, None);
}

/// The nearest-neighbour source pixel of slot pixel `(x, y)`.
pub open spec fn scaled_pixel(icon: IconModel, slot: u32, x: int, y: int) -> u32 {
    icon.2[((y * icon.1) / (slot as int)) * icon.0 + (x * icon.0) / (slot as int)]
}

/// Nearest-neighbour scale into a square slot, alpha preserved.
pub fn scale_icon_to_slot(icon: &IconImage, slot: u32) -> (r: Option<IconImage>)
    requires
        icon.argb@.len() >= icon.width * icon.height,
        slot * slot <= usize::MAX,
        slot * icon.width <= usize::MAX,
        slot * icon.height <= usize::MAX,
    ensures
        r is Some <==> (slot != 0 && icon.width != 0 && icon.height != 0),
        r matches Some(img) ==> img.width == slot && img.height == slot && img.argb@.len() == slot
            * slot && forall|y: int, x: int|
            0 <= y < slot && 0 <= x < slot ==> #[trigger] img.argb@[y * slot + x] == scaled_pixel(
                icon_model(*icon),
                slot,
                x,
                y,
            ),
{
    if slot == 0 || icon.width == 0 || icon.height == 0 {
        return None;
    }
    let alen = icon.argb.len();
    let s = slot as usize;
    let w = icon.width as usize;
    let h = icon.height as usize;
    let mut argb: Vec<u32> = Vec::new();
    let mut y: usize = 0;
    while y < s
        invariant
            s == slot,
            w == icon.width,
            h == icon.height,
            w > 0,
            h > 0,
            y <= s,
            icon.argb@.len() >= w * h,
            alen == icon.argb@.len(),
            s * s <= usize::MAX,
            s * w <= usize::MAX,
            s * h <= usize::MAX,
            argb@.len() == y * s,
            forall|yy: int, xx: int|
                0 <= yy < y && 0 <= xx < s ==> #[trigger] argb@[yy * s + xx] == scaled_pixel(
                    icon_model(*icon),
                    slot,
                    xx,
                    yy,
                ),
        decreases s - y,
    {
        proof {
            assert(y * h < s * h) by (nonlinear_arith)
                requires
                    y < s,
                    h > 0,
            ;
        }
        let source_y = y * h / s;
        proof {
            assert(source_y < h) by (nonlinear_arith)
                requires
                    source_y == (y * h) / (s as int),
                    y * h < s * h,
                    s > 0,
                    h > 0,
            ;
            assert(source_y * w + w <= h * w) by (nonlinear_arith)
                requires
                    source_y < h,
            ;
            assert(h * w == w * h) by (nonlinear_arith);
        }
        let mut x: usize = 0;
        while x < s
            invariant
                s == slot,
                w == icon.width,
                h == icon.height,
                w > 0,
                s > 0,
                x <= s,
                y < s,
                source_y == (y * h) / (s as int),
                source_y * w + w <= w * h,
                icon.argb@.len() >= w * h,
                alen == icon.argb@.len(),
                s * w <= usize::MAX,
                argb@.len() == y * s + x,
                forall|yy: int, xx: int|
                    ((0 <= yy < y && 0 <= xx < s) || (yy == y && 0 <= xx < x)) ==> #[trigger] argb@[yy
                        * s + xx] == scaled_pixel(icon_model(*icon), slot, xx, yy),
            decreases s - x,
        {
            proof {
                assert(x * w < s * w) by (nonlinear_arith)
                    requires
                        x < s,
                        w > 0,
                ;
            }
            let source_x = x * w / s;
            proof {
                assert(source_x < w) by (nonlinear_arith)
                    requires
                        source_x == (x * w) / (s as int),
                        x * w < s * w,
                        s > 0,
                        w > 0,
                ;
            }
            argb.push(icon.argb[source_y * w + source_x]);
            proof {
                assert forall|yy: int, xx: int|
                    ((0 <= yy < y && 0 <= xx < s) || (yy == y && 0 <= xx < x + 1)) implies #[trigger] argb@[yy
                        * s + xx] == scaled_pixel(icon_model(*icon), slot, xx, yy) by {
                    if yy == y && xx == x {
                    } else {
                        assert(yy * s + xx < y * s + x) by (nonlinear_arith)
                            requires
                                (0 <= yy < y && 0 <= xx < s) || (yy == y && 0 <= xx < x),
                                s > 0,
                        ;
                    }
                }
            }
            x += 1;
        }
        proof {
            assert((y + 1) * s == y * s + s) by (nonlinear_arith);
        }
        y += 1;
    }
    Some(IconImage { width: slot, height: slot, argb })
}

/// A straight (not premultiplied) RGBA8 raster, row-major, four bytes per
/// pixel.
#[derive(Debug, Clone, PartialEq, Eq)]
pub struct RgbaRaster {
    pub width: u32,
    pub height: u32,
    pub pixels: Vec<u8>,
}

/// Byte `k` (R, G, B, A order) of an ARGB32 pixel.
pub open spec fn rgba_channel(p: u32, k: int) -> u8 {
    if k == 0 {
        ((p >> 16u32) & 0xffu32) as u8
    } else if k == 1 {
        ((p >> 8u32) & 0xffu32) as u8
    } else if k == 2 {
        (p & 0xffu32) as u8
    } else {
        ((p >> 24u32) & 0xffu32) as u8
    }
}

/// The icon scaled into a square slot as a straight RGBA8 raster: each
/// ARGB pixel of the scaled icon becomes its R, G, B, A bytes.
pub fn native_icon_rgba(icon: &IconImage, slot: u32) -> (r: Option<RgbaRaster>)
    requires
        icon.argb@.len() >= icon.width * icon.height,
        4 * slot * slot <= usize::MAX,
        slot * icon.width <= usize::MAX,
        slot * icon.height <= usize::MAX,
    ensures
        r is Some <==> (slot != 0 && icon.width != 0 && icon.height != 0),
        r matches Some(img) ==> img.width == slot && img.height == slot && img.pixels@.len() == 4
            * slot * slot && forall|y: int, x: int, k: int|
            0 <= y < slot && 0 <= x < slot && 0 <= k < 4 ==> #[trigger] img.pixels@[4 * (y * slot
                + x) + k] == rgba_channel(scaled_pixel(icon_model(*icon), slot, x, y), k),
{
    proof {
        assert(slot * slot <= 4 * slot * slot && 4 * (slot * slot) == 4 * slot * slot)
            by (nonlinear_arith);
    }
    let scaled = match scale_icon_to_slot(icon, slot) {
        Some(s) => s,
        None => return None,
    };
    let n = scaled.argb.len();
    let ghost sl = slot as int;
    let mut pixels: Vec<u8> = Vec::new();
    let mut i: usize = 0;
    while i < n
        invariant
            n == scaled.argb@.len(),
            n == sl * sl,
            4 * n <= usize::MAX,
            i <= n,
            pixels@.len() == 4 * i,
            forall|j: int, k: int|
                0 <= j < i && 0 <= k < 4 ==> #[trigger] pixels@[4 * j + k] == rgba_channel(
                    scaled.argb@[j],
                    k,
                ),
        decreases n - i,
    {
        let p = scaled.argb[i];
        pixels.push(((p >> 16) & 0xff) as u8);
        pixels.push(((p >> 8) & 0xff) as u8);
        pixels.push((p & 0xff) as u8);
        pixels.push(((p >> 24) & 0xff) as u8);
        proof {
            assert forall|j: int, k: int| 0 <= j < i + 1 && 0 <= k < 4 implies #[trigger] pixels@[4
                * j + k] == rgba_channel(scaled.argb@[j], k) by {
                if j < i {
                    assert(4 * j + k < 4 * i);
                }
            }
        }
        i += 1;
    }
    proof {
        assert forall|y: int, x: int, k: int|
            0 <= y < slot && 0 <= x < slot && 0 <= k < 4 implies #[trigger] pixels@[4 * (y * slot
                + x) + k] == rgba_channel(scaled_pixel(icon_model(*icon), slot, x, y), k) by {
            assert(0 <= y * sl + x < sl * sl) by (nonlinear_arith)
                requires
                    0 <= y < sl,
                    0 <= x < sl,
            ;
            let j = y * sl + x;
            assert(scaled.argb@[j] == scaled_pixel(icon_model(*icon), slot, x, y));
            assert(pixels@[4 * j + k] == rgba_channel(scaled.argb@[j], k));
        }
    }
    Some(RgbaRaster { width: slot, height: slot, pixels })
}

/// Horizontal paint position of a centred title: the centre position
/// `(W - tw) / 2` clamped between `left + pad` and `right - pad - tw`, the
/// two bounds taken in ascending order (so a title wider than the free
/// region keeps its centred position).
pub open spec fn centered_title_x(w: int, tw: int, left: int, right: int, pad: int) -> int {
    let desired = trunc_half(w - tw);
    let lo = left + pad;
    let hi = right - pad - tw;
    let a = if lo <= hi { lo } else { hi };
    let b = if lo <= hi { hi } else { lo };
    if desired < a {
        a
    } else if desired > b {
        b
    } else {
        desired
    }
}

/// Centre-title position: `clamp((W - tw) / 2, left + pad, right - pad - tw)`
/// with the bounds sorted; `/ 2` rounds toward zero.
pub fn center_title_x(
    titlebar_width: i32,
    title_text_width: i32,
    left_occupied: i32,
    right_occupied: i32,
    padding: i32,
) -> (r: i32)
    requires
        i32::MIN <= left_occupied + padding <= i32::MAX,
        i32::MIN <= right_occupied - padding - title_text_width <= i32::MAX,
    ensures
        r == centered_title_x(
            titlebar_width as int,
            title_text_width as int,
            left_occupied as int,
            right_occupied as int,
            padding as int,
        ),
{
    let diff: i64 = titlebar_width as i64 - title_text_width as i64;
    let desired: i64 = diff / 2;
    let lo: i64 = left_occupied as i64 + padding as i64;
    let hi: i64 = right_occupied as i64 - padding as i64 - title_text_width as i64;
    let a = if lo <= hi { lo } else { hi };
    let b = if lo <= hi { hi } else { lo };
    let r: i64 = if desired < a {
        a
    } else if desired > b {
        b
    } else {
        desired
    };
    r as i32
}

/// Material of a cached control glyph.
#[derive(Debug, Clone, Copy, PartialEq, Eq, Structural, Hash)]
pub enum ControlMaterial {
    Rest,
    Hover,
    Pressed,
}

impl ControlMaterial {
    /// Pressed wins over hover; otherwise rest.
    pub fn for_pointer(hovered: bool, pressed: bool) -> (r: Self)
        ensures
            r == (if pressed {
                ControlMaterial::Pressed
            } else if hovered {
                ControlMaterial::Hover
            } else {
                ControlMaterial::Rest
            }),
    {
        if pressed {
            ControlMaterial::Pressed
        } else if hovered {
            ControlMaterial::Hover
        } else {
            ControlMaterial::Rest
        }
    }
}

/// Cache key of a control glyph raster.
#[derive(Debug, Clone, Copy, PartialEq, Eq, Structural, Hash)]
pub struct ControlGlyphKey {
    pub role: ControlRole,
    pub edge: u32,
    pub material: ControlMaterial,
}

impl ControlGlyphKey {
    pub fn new(role: ControlRole, edge: u32, material: ControlMaterial) -> (r: Self)
        ensures
            r == (ControlGlyphKey { role, edge, material }),
    {
        ControlGlyphKey { role, edge, material }
    }
}

/// At most this many characters are measured.
pub const TITLE_MAX_CHARS: usize = 96;

/// East Asian wide ranges (Hangul Jamo, CJK, Hangul syllables,
/// compatibility ideographs, vertical forms, full-width forms).
pub open spec fn wide_char(c: char) -> bool {
    let v = c as u32;
    (0x1100 <= v <= 0x115F) || (0x2E80 <= v <= 0xA4CF) || (0xAC00 <= v <= 0xD7A3)
        || (0xF900 <= v <= 0xFAFF) || (0xFE30 <= v <= 0xFE4F) || (0xFF00 <= v <= 0xFFEF)
}

/// Proportional advance: ASCII 7, wide 12, other 8 pixels.
pub open spec fn char_advance(c: char) -> int {
    if (c as u32) < 128 {
        7
    } else if wide_char(c) {
        12
    } else {
        8
    }
}

/// Sum of the advances of a character sequence.
pub open spec fn advance_sum(s: Seq<char>) -> int
    decreases s.len(),
{
    if s.len() == 0 {
        0
    } else {
        advance_sum(s.drop_last()) + char_advance(s.last())
    }
}

fn is_wide(ch: char) -> (r: bool)
    ensures
        r == wide_char(ch),
{
    let v = ch as u32;
    (0x1100 <= v && v <= 0x115F) || (0x2E80 <= v && v <= 0xA4CF) || (0xAC00 <= v && v <= 0xD7A3)
        || (0xF900 <= v && v <= 0xFAFF) || (0xFE30 <= v && v <= 0xFE4F) || (0xFF00 <= v && v <= 0xFFEF)
}

proof fn lemma_advance_sum_bound(s: Seq<char>)
    ensures
        0 <= advance_sum(s) <= 12 * s.len(),
    decreases s.len(),
{
    if s.len() > 0 {
        lemma_advance_sum_bound(s.drop_last());
    }
}

/// Title width estimate: the advances of the first 96 characters.
pub fn title_text_width(title: &str) -> (r: i32)
    ensures
        r == advance_sum(title@.take(if title@.len() < 96 { title@.len() as int } else { 96 })),
{
    let len = title.unicode_len();
    let limit = if len < TITLE_MAX_CHARS { len } else { TITLE_MAX_CHARS };
    let mut width: i32 = 0;
    let mut i: usize = 0;
    while i < limit
        invariant
            len == title@.len(),
            limit <= len,
            limit <= 96,
            i <= limit,
            width == advance_sum(title@.take(i as int)),
        decreases limit - i,
    {
        let ch = title.get_char(i);
        proof {
            assert(title@.take(i as int + 1).drop_last() =~= title@.take(i as int));
            lemma_advance_sum_bound(title@.take(i as int));
        }
        let advance: i32 = if (ch as u32) < 128 {
            7
        } else if is_wide(ch) {
            12
        } else {
            8
        };
        width = width + advance;
        i += 1;
    }
    width
}


/// Icon roles a window class can fall back to.
#[derive(Debug, Clone, Copy, PartialEq, Eq, Structural, Hash)]
pub enum IconRole {
    Terminal,
    Browser,
    Files,
    Code,
    Settings,
    Trash,
    Volume,
    Lock,
}

/// Code points of a character sequence.
pub open spec fn codes(s: Seq<char>) -> Seq<u32> {
    Seq::new(s.len(), |i: int| s[i] as u32)
}

/// ASCII lowercase of one character's code point; other characters keep
/// theirs.
pub open spec fn lower_code(c: char) -> u32 {
    let v = c as u32;
    if 65 <= v && v <= 90 {
        (v + 32) as u32
    } else {
        v
    }
}

/// The ASCII-lowercased code points of a character sequence.
pub open spec fn lowered(s: Seq<char>) -> Seq<u32> {
    Seq::new(s.len(), |i: int| lower_code(s[i]))
}

/// `p` occurs in `t` starting at `k`.
pub open spec fn occurs_at(t: Seq<u32>, p: Seq<u32>, k: int) -> bool {
    &&& 0 <= k
    &&& k + p.len() <= t.len()
    &&& forall|j: int| 0 <= j < p.len() ==> #[trigger] t[k + j] == p[j]
}

/// `p` occurs somewhere in `t`.
pub open spec fn has_sub(t: Seq<u32>, p: Seq<u32>) -> bool {
    exists|k: int| occurs_at(t, p, k)
}

/// Class tokens are separated by NUL, space, `-` and `_`.
pub open spec fn is_class_sep(c: u32) -> bool {
    c == 0 || c == 32 || c == 45 || c == 95
}

/// The role one lowercased token names, by the first rule it meets.
pub open spec fn token_role(t: Seq<u32>) -> Option<IconRole> {
    if has_sub(t, codes("terminal"@)) || t == codes("xterm"@) || t == codes("kitty"@) || t == codes(
        "alacritty"@,
    ) {
        Some(IconRole::Terminal)
    } else if has_sub(t, codes("browser"@)) || has_sub(t, codes("firefox"@)) || has_sub(
        t,
        codes("chrome"@),
    ) {
        Some(IconRole::Browser)
    } else if has_sub(t, codes("file"@)) || has_sub(t, codes("nautilus"@)) || has_sub(
        t,
        codes("dolphin"@),
    ) {
        Some(IconRole::Files)
    } else if has_sub(t, codes("code"@)) || has_sub(t, codes("editor"@)) || has_sub(t, codes("vim"@)) {
        Some(IconRole::Code)
    } else if has_sub(t, codes("setting"@)) || has_sub(t, codes("config"@)) {
        Some(IconRole::Settings)
    } else if has_sub(t, codes("trash"@)) {
        Some(IconRole::Trash)
    } else if has_sub(t, codes("music"@)) || has_sub(t, codes("audio"@)) {
        Some(IconRole::Volume)
    } else if has_sub(t, codes("lock"@)) {
        Some(IconRole::Lock)
    } else {
        None
    }
}

/// Scan the tokens of `s`, the current one starting at `start`, from
/// position `i`: the role of the first token that names one.
pub open spec fn role_scan(s: Seq<u32>, start: int, i: int) -> Option<IconRole>
    decreases s.len() - i,
{
    if i >= s.len() {
        token_role(s.subrange(start, s.len() as int))
    } else if is_class_sep(s[i]) {
        match token_role(s.subrange(start, i)) {
            Some(r) => Some(r),
            None => role_scan(s, i + 1, i + 1),
        }
    } else {
        role_scan(s, start, i + 1)
    }
}

/// The icon role a `WM_CLASS` string falls back to: the first of its
/// lowercased tokens that names one.
pub open spec fn class_role(class: Seq<char>) -> Option<IconRole> {
    role_scan(lowered(class), 0, 0)
}

fn occurs_exec(v: &Vec<u32>, start: usize, end: usize, k: usize, pat: &str, plen: usize) -> (r: bool)
    requires
        start <= k,
        plen <= end - k,
        end <= v@.len(),
        plen == pat@.len(),
    ensures
        r == occurs_at(v@.subrange(start as int, end as int), codes(pat@), k - start),
{
    let ghost t = v@.subrange(start as int, end as int);
    let ghost p = codes(pat@);
    let mut j: usize = 0;
    while j < plen
        invariant
            j <= plen,
            plen == pat@.len(),
            start <= k,
            plen <= end - k,
            end <= v@.len(),
            t == v@.subrange(start as int, end as int),
            p == codes(pat@),
            forall|jj: int| 0 <= jj < j ==> #[trigger] t[k - start + jj] == p[jj],
        decreases plen - j,
    {
        let c = pat.get_char(j);
        if v[k + j] != c as u32 {
            assert(t[k - start + j] != p[j as int]);
            return false;
        }
        assert(t[k - start + j] == p[j as int]);
        j += 1;
    }
    true
}

fn contains_exec(v: &Vec<u32>, start: usize, end: usize, pat: &str) -> (r: bool)
    requires
        start <= end <= v@.len(),
    ensures
        r == has_sub(v@.subrange(start as int, end as int), codes(pat@)),
{
    let ghost t = v@.subrange(start as int, end as int);
    let ghost p = codes(pat@);
    let plen = pat.unicode_len();
    let mut k = start;
    while k <= end && plen <= end - k
        invariant
            start <= k,
            end <= v@.len(),
            plen == pat@.len(),
            t == v@.subrange(start as int, end as int),
            p == codes(pat@),
            forall|kk: int| 0 <= kk < k - start ==> !occurs_at(t, p, kk),
        decreases end + 1 - k,
    {
        if occurs_exec(v, start, end, k, pat, plen) {
            return true;
        }
        k += 1;
    }
    assert forall|kk: int| !occurs_at(t, p, kk) by {
        if 0 <= kk < k - start {
        } else if kk >= k - start {
            assert(kk + p.len() > t.len());
        }
    }
    false
}

fn equals_exec(v: &Vec<u32>, start: usize, end: usize, pat: &str) -> (r: bool)
    requires
        start <= end <= v@.len(),
    ensures
        r == (v@.subrange(start as int, end as int) == codes(pat@)),
{
    let ghost t = v@.subrange(start as int, end as int);
    let ghost p = codes(pat@);
    let plen = pat.unicode_len();
    if plen != end - start {
        assert(t.len() != p.len());
        return false;
    }
    let r = occurs_exec(v, start, end, start, pat, plen);
    if r {
        assert forall|j: int| 0 <= j < t.len() implies t[j] == p[j] by {
            assert(t[start - start + j] == p[j]);
        }
        assert(t =~= p);
    } else {
        assert(t != p) by {
            if t == p {
                assert forall|j: int| 0 <= j < p.len() implies #[trigger] t[0 + j] == p[j] by {}
            }
        }
    }
    r
}

fn token_role_exec(v: &Vec<u32>, start: usize, end: usize) -> (r: Option<IconRole>)
    requires
        start <= end <= v@.len(),
    ensures
        r == token_role(v@.subrange(start as int, end as int)),
{
    if contains_exec(v, start, end, "terminal") || equals_exec(v, start, end, "xterm") || equals_exec(
        v,
        start,
        end,
        "kitty",
    ) || equals_exec(v, start, end, "alacritty") {
        Some(IconRole::Terminal)
    } else if contains_exec(v, start, end, "browser") || contains_exec(v, start, end, "firefox")
        || contains_exec(v, start, end, "chrome") {
        Some(IconRole::Browser)
    } else if contains_exec(v, start, end, "file") || contains_exec(v, start, end, "nautilus")
        || contains_exec(v, start, end, "dolphin") {
        Some(IconRole::Files)
    } else if contains_exec(v, start, end, "code") || contains_exec(v, start, end, "editor")
        || contains_exec(v, start, end, "vim") {
        Some(IconRole::Code)
    } else if contains_exec(v, start, end, "setting") || contains_exec(v, start, end, "config") {
        Some(IconRole::Settings)
    } else if contains_exec(v, start, end, "trash") {
        Some(IconRole::Trash)
    } else if contains_exec(v, start, end, "music") || contains_exec(v, start, end, "audio") {
        Some(IconRole::Volume)
    } else if contains_exec(v, start, end, "lock") {
        Some(IconRole::Lock)
    } else {
        None
    }
}

fn lowered_codes(s: &str) -> (r: Vec<u32>)
    ensures
        r@ == lowered(s@),
{
    let n = s.unicode_len();
    let mut out: Vec<u32> = Vec::new();
    let mut i: usize = 0;
    while i < n
        invariant
            n == s@.len(),
            i <= n,
            out@ == lowered(s@).take(i as int),
        decreases n - i,
    {
        let v = s.get_char(i) as u32;
        let l = if 65 <= v && v <= 90 {
            v + 32
        } else {
            v
        };
        out.push(l);
        proof {
            assert(lowered(s@).take(i as int + 1) =~= lowered(s@).take(i as int).push(l));
        }
        i += 1;
    }
    assert(lowered(s@).take(n as int) =~= lowered(s@));
    out
}

/// The icon role for a window class: the first token of the ASCII-lowercased
/// class (tokens split at NUL, space, `-` and `_`) that names a known kind
/// of application.
pub fn icon_role_for_class(wm_class: &str) -> (r: Option<IconRole>)
    ensures
        r == class_role(wm_class@),
{
    let v = lowered_codes(wm_class);
    let n = v.len();
    let mut start: usize = 0;
    let mut i: usize = 0;
    while i < n
        invariant
            n == v@.len(),
            v@ == lowered(wm_class@),
            start <= i <= n,
            role_scan(v@, start as int, i as int) == role_scan(v@, 0, 0),
        decreases n - i,
    {
        if v[i] == 0 || v[i] == 32 || v[i] == 45 || v[i] == 95 {
            let r = token_role_exec(&v, start, i);
            assert(is_class_sep(v@[i as int]));
            if r.is_some() {
                assert(role_scan(v@, start as int, i as int) == r);
                return r;
            }
            start = i + 1;
        }
        i += 1;
    }
    token_role_exec(&v, start, n)
}

} // verus!
